use vstd::prelude::*;

use crate::font_settings::FontSettings;
use crate::string_plus::{StringPlus, StringPlusView};
use crate::tui_codes::{
    calc_font_settings_code, dec_line_code_spec, font_settings_code_spec, get_dec_line_code,
};
use vstd::string::{StrSliceExecFns, StringExecFns};

verus! {

/// `t` with every line feed replaced by `sep`.
pub open spec fn expand_newlines(t: Seq<char>, sep: Seq<char>) -> Seq<char>
    decreases t.len(),
{
    if t.len() == 0 {
        Seq::empty()
    } else {
        expand_newlines(t.drop_last(), sep) + if t.last() == '\n' {
            sep
        } else {
            seq![t.last()]
        }
    }
}

proof fn lemma_expand_append(a: Seq<char>, b: Seq<char>, sep: Seq<char>)
    ensures
        expand_newlines(a + b, sep) == expand_newlines(a, sep) + expand_newlines(b, sep),
    decreases b.len(),
{
    if b.len() == 0 {
        assert(a + b =~= a);
        assert(expand_newlines(a, sep) + expand_newlines(b, sep) =~= expand_newlines(a, sep));
    } else {
        assert((a + b).drop_last() =~= a + b.drop_last());
        lemma_expand_append(a, b.drop_last(), sep);
        assert(expand_newlines(a + b, sep) =~= expand_newlines(a, sep) + expand_newlines(b, sep));
    }
}

proof fn lemma_expand_plain(a: Seq<char>, sep: Seq<char>)
    requires
        forall|j: int| 0 <= j < a.len() ==> a[j] != '\n',
    ensures
        expand_newlines(a, sep) == a,
    decreases a.len(),
{
    if a.len() > 0 {
        lemma_expand_plain(a.drop_last(), sep);
        assert(expand_newlines(a, sep) =~= a);
    }
}

/// `open`, then `text` with each line feed replaced by `sep`, then `close`.
pub fn render_lines(text: &str, open: &str, sep: &str, close: &str) -> (r: String)
    ensures
        r@ == open@ + expand_newlines(text@, sep@) + close@,
{
    let n = text.unicode_len();
    let mut out = String::from_str(open);
    let mut start: usize = 0;
    let mut i: usize = 0;
    while i < n
        invariant
            n == text@.len(),
            start <= i <= n,
            out@ == open@ + expand_newlines(text@.take(start as int), sep@),
            forall|j: int| start <= j < i ==> text@[j] != '\n',
        decreases n - i,
    {
        if text.get_char(i) == '\n' {
            let piece = text.substring_char(start, i);
            out.append(piece);
            out.append(sep);
            proof {
                let t = text@;
                lemma_expand_plain(piece@, sep@);
                assert(t.take(i + 1) =~= t.take(start as int) + piece@ + seq!['\n']);
                lemma_expand_append(t.take(start as int) + piece@, seq!['\n'], sep@);
                lemma_expand_append(t.take(start as int), piece@, sep@);
                let nl = seq!['\n'];
                assert(nl.drop_last() =~= Seq::<char>::empty());
                assert(nl.last() == '\n');
                assert(expand_newlines(nl.drop_last(), sep@) =~= Seq::<char>::empty());
                assert(expand_newlines(nl, sep@) =~= sep@);
                assert(out@ =~= open@ + expand_newlines(t.take(i + 1), sep@));
            }
            start = i + 1;
        }
        i = i + 1;
    }
    let piece = text.substring_char(start, n);
    out.append(piece);
    out.append(close);
    proof {
        let t = text@;
        lemma_expand_plain(piece@, sep@);
        assert(t =~= t.take(start as int) + piece@);
        lemma_expand_append(t.take(start as int), piece@, sep@);
        assert(out@ =~= open@ + expand_newlines(t, sep@) + close@);
    }
    out
}

/// `ESC [ 0 K`: clears from the cursor to the end of the line.
pub open spec fn clear_end_line_spec() -> Seq<char> {
    "\x1b[0K"@
}

/// The attributes of `f` (colours resolved against `ambient`) followed by
/// its line-drawing switch.
pub open spec fn settings_spec(ambient: FontSettings, f: FontSettings) -> Seq<char> {
    font_settings_code_spec(ambient, f) + dec_line_code_spec(f.is_dec_line)
}

/// What writing `v` emits in a session whose settings are `ambient`: every
/// line is written with the text's attributes and followed by the session's
/// own, so that no attribute outlives the line it belongs to.
pub open spec fn write_spec(ambient: FontSettings, v: StringPlusView) -> Seq<char> {
    let open = settings_spec(ambient, v.font_settings);
    let close = settings_spec(ambient, ambient);
    open + expand_newlines(v.text, close + open + "\n"@) + close
}

/// As `write_spec`, with the rest of each line cleared after every change of
/// attributes.
pub open spec fn print_spec(ambient: FontSettings, v: StringPlusView) -> Seq<char> {
    let open = settings_spec(ambient, v.font_settings) + clear_end_line_spec();
    let close = settings_spec(ambient, ambient) + clear_end_line_spec();
    open + expand_newlines(v.text, close + open + "\n"@) + close
}

/// As `print_spec`, with a line feed after every line, the last included.
pub open spec fn println_spec(ambient: FontSettings, v: StringPlusView) -> Seq<char> {
    let open = settings_spec(ambient, v.font_settings) + clear_end_line_spec();
    let close = settings_spec(ambient, ambient) + clear_end_line_spec();
    open + expand_newlines(v.text, close + "\n"@ + open) + close + "\n"@
}

/// The settings of `f` as the session `ambient` sends them, followed by a
/// clear to the end of the line when `clear` holds.
pub fn settings_code(ambient: &FontSettings, f: &FontSettings, clear: bool) -> (r: String)
    ensures
        r@ == settings_spec(*ambient, *f) + if clear {
            clear_end_line_spec()
        } else {
            Seq::empty()
        },
{
    let mut code = calc_font_settings_code(ambient, f);
    code.append(get_dec_line_code(f.is_dec_line));
    if clear {
        code.append("\x1b[0K");
    }
    proof {
        assert(code@ =~= settings_spec(*ambient, *f) + if clear {
            clear_end_line_spec()
        } else {
            Seq::empty()
        });
    }
    code
}

/// The output of writing `string_plus` in a session whose settings are
/// `ambient`.
pub fn write_output(ambient: &FontSettings, string_plus: &StringPlus) -> (r: String)
    ensures
        r@ == write_spec(*ambient, string_plus@),
{
    let open = settings_code(ambient, string_plus.get_font_settings(), false);
    let close = settings_code(ambient, ambient, false);
    let mut sep = close.clone();
    sep.append(open.as_str());
    sep.append("\n");
    let text = string_plus.to_string();
    let r = render_lines(text.as_str(), open.as_str(), sep.as_str(), close.as_str());
    proof {
        assert(open@ =~= settings_spec(*ambient, string_plus@.font_settings));
        assert(close@ =~= settings_spec(*ambient, *ambient));
    }
    r
}

/// The output of printing `string_plus` in a session whose settings are
/// `ambient`.
pub fn print_output(ambient: &FontSettings, string_plus: &StringPlus) -> (r: String)
    ensures
        r@ == print_spec(*ambient, string_plus@),
{
    let open = settings_code(ambient, string_plus.get_font_settings(), true);
    let close = settings_code(ambient, ambient, true);
    let mut sep = close.clone();
    sep.append(open.as_str());
    sep.append("\n");
    let text = string_plus.to_string();
    render_lines(text.as_str(), open.as_str(), sep.as_str(), close.as_str())
}

/// The output of printing `string_plus` as whole lines in a session whose
/// settings are `ambient`.
pub fn println_output(ambient: &FontSettings, string_plus: &StringPlus) -> (r: String)
    ensures
        r@ == println_spec(*ambient, string_plus@),
{
    let open = settings_code(ambient, string_plus.get_font_settings(), true);
    let close = settings_code(ambient, ambient, true);
    let mut sep = close.clone();
    sep.append("\n");
    sep.append(open.as_str());
    let text = string_plus.to_string();
    let mut r = render_lines(text.as_str(), open.as_str(), sep.as_str(), close.as_str());
    r.append("\n");
    r
}

} // verus!
