//! Rendering one log record as a text block: the bracketed header, the
//! continuation-indented multi-line body, the collector event title and
//! tags, and the fully painted console line.

use vstd::prelude::*;
use crate::clock::render_time;
use crate::clock::time_rep;
use crate::level::code_spec;
use crate::level::collector_level_name;
use crate::level::collector_name_spec;
use crate::level::color_spec;
use crate::level::display_code;
use crate::level::display_color;
use crate::level::Level;
use crate::paint::paint_bold;
use crate::paint::painted_rep;

verus! {

/// The view of an optional module path.
pub open spec fn opt_view(m: Option<&str>) -> Option<Seq<char>> {
    match m {
        Some(s) => Some(s@),
        None => None,
    }
}

/// The header of a record: `[CODE TIME MODULE]`, or `[CODE TIME]` when
/// the record carries no module path.
pub open spec fn header_rep(l: Level, time: Seq<char>, module: Option<Seq<char>>) -> Seq<char> {
    match module {
        Some(m) => seq!['['] + code_spec(l) + seq![' '] + time + seq![' '] + m + seq![']'],
        None => seq!['['] + code_spec(l) + seq![' '] + time + seq![']'],
    }
}

/// `n` space characters.
pub open spec fn spaces(n: nat) -> Seq<char>
    decreases n,
{
    if n == 0 {
        Seq::empty()
    } else {
        spaces((n - 1) as nat).push(' ')
    }
}

/// What one message character contributes to the rendered body: a
/// newline brings `pad` spaces of continuation indent with it.
pub open spec fn indent_unit(c: char, pad: nat) -> Seq<char> {
    if c == '\n' {
        seq!['\n'] + spaces(pad)
    } else {
        seq![c]
    }
}

/// The message body with every embedded newline followed by `pad` spaces
/// of continuation indent.
pub open spec fn indented_rep(msg: Seq<char>, pad: nat) -> Seq<char>
    decreases msg.len(),
{
    if msg.len() == 0 {
        Seq::empty()
    } else {
        indent_unit(msg[0], pad) + indented_rep(msg.drop_first(), pad)
    }
}

/// One full console line for a record: the painted header, a separating
/// space, the body indented under the header, and the terminating
/// newline.
pub open spec fn line_rep(
    l: Level,
    module: Option<Seq<char>>,
    msg: Seq<char>,
    time: Seq<char>,
) -> Seq<char> {
    let header = header_rep(l, time, module);
    painted_rep(color_spec(l), header) + seq![' '] + indented_rep(msg, header.len() + 1) + seq![
        '\n',
    ]
}

/// The collector tag naming the record's level.
pub open spec fn level_tag_rep(l: Level) -> Seq<char> {
    "level:"@ + collector_name_spec(l)
}

/// The collector tag naming the record's module path.
pub open spec fn module_tag_rep(m: Seq<char>) -> Seq<char> {
    "module:"@ + m
}

/// The collector event's title: the module-less header followed by the
/// module path.
pub open spec fn event_title_rep(l: Level, time: Seq<char>, m: Seq<char>) -> Seq<char> {
    header_rep(l, time, None) + seq![' '] + m
}

/// `spaces(n)` has length `n` and holds space characters only.
pub proof fn lemma_spaces_all(n: nat)
    ensures
        spaces(n).len() == n,
        forall|i: int| 0 <= i < n ==> spaces(n)[i] == ' ',
    decreases n,
{
    if n > 0 {
        lemma_spaces_all((n - 1) as nat);
    }
}

/// Indenting distributes over concatenation of messages.
pub proof fn lemma_indented_concat(a: Seq<char>, b: Seq<char>, pad: nat)
    ensures
        indented_rep(a + b, pad) == indented_rep(a, pad) + indented_rep(b, pad),
    decreases a.len(),
{
    if a.len() == 0 {
        assert(a + b =~= b);
        assert(indented_rep(a, pad) + indented_rep(b, pad) =~= indented_rep(b, pad));
    } else {
        assert((a + b).drop_first() =~= a.drop_first() + b);
        lemma_indented_concat(a.drop_first(), b, pad);
        assert(indented_rep(a + b, pad) =~= indented_rep(a, pad) + indented_rep(b, pad));
    }
}

/// A message without newlines renders as itself.
pub proof fn lemma_indented_no_newline(s: Seq<char>, pad: nat)
    requires
        forall|i: int| 0 <= i < s.len() ==> s[i] != '\n',
    ensures
        indented_rep(s, pad) == s,
    decreases s.len(),
{
    if s.len() > 0 {
        assert(forall|i: int|
            0 <= i < s.drop_first().len() ==> #[trigger] s.drop_first()[i] != '\n');
        lemma_indented_no_newline(s.drop_first(), pad);
        assert(indented_rep(s, pad) =~= s);
    }
}

/// Law: a message whose first line is `first` and whose continuation is
/// `rest` renders with exactly `pad` spaces of indent between the
/// newline and the continuation text.
pub proof fn lemma_continuation_indent(first: Seq<char>, rest: Seq<char>, pad: nat)
    requires
        forall|i: int| 0 <= i < first.len() ==> first[i] != '\n',
    ensures
        indented_rep(first + seq!['\n'] + rest, pad) == first + seq!['\n'] + spaces(pad)
            + indented_rep(rest, pad),
{
    assert(first + seq!['\n'] + rest =~= (first + seq!['\n']) + rest);
    lemma_indented_concat(first + seq!['\n'], rest, pad);
    lemma_indented_concat(first, seq!['\n'], pad);
    lemma_indented_no_newline(first, pad);
    assert(seq!['\n'].drop_first() =~= Seq::<char>::empty());
    assert(indented_rep(Seq::<char>::empty(), pad) =~= Seq::<char>::empty());
    assert(indented_rep(seq!['\n'], pad) =~= seq!['\n'] + spaces(pad));
    assert(indented_rep(first + seq!['\n'] + rest, pad) =~= first + seq!['\n'] + spaces(pad)
        + indented_rep(rest, pad));
}

/// Appends `n` spaces to `s`.
pub fn append_spaces(s: &mut String, n: usize)
    ensures
        final(s)@ == old(s)@ + spaces(n as nat),
{
    let ghost base = s@;
    let mut i: usize = 0;
    while i < n
        invariant
            i <= n,
            s@ == base + spaces(i as nat),
        decreases n - i,
    {
        s.append(" ");
        proof {
            reveal_strlit(" ");
            assert(s@ =~= base + spaces(i as nat + 1));
        }
        i = i + 1;
    }
    proof {
        assert(final(s)@ =~= old(s)@ + spaces(n as nat));
    }
}

/// Builds the record header `[CODE TIME MODULE]` (`[CODE TIME]` without
/// a module path).
pub fn build_header(l: Level, time: &str, module: Option<&str>) -> (r: String)
    ensures
        r@ == header_rep(l, time@, opt_view(module)),
{
    let mut out = String::new();
    out.append("[");
    out.append(display_code(l));
    out.append(" ");
    out.append(time);
    if let Some(m) = module {
        out.append(" ");
        out.append(m);
    }
    out.append("]");
    proof {
        reveal_strlit("[");
        reveal_strlit(" ");
        reveal_strlit("]");
        assert(out@ =~= header_rep(l, time@, opt_view(module)));
    }
    out
}

/// Renders the message body with continuation lines indented one column
/// past a header of length `header_len`, so that every line of the
/// message starts in the same column.
pub fn indent_body(msg: &str, header_len: usize) -> (r: String)
    ensures
        r@ == indented_rep(msg@, header_len as nat + 1),
{
    let ghost pad: nat = header_len as nat + 1;
    let n = msg.unicode_len();
    let mut out = String::new();
    let mut i: usize = 0;
    while i < n
        invariant
            i <= n,
            n == msg@.len(),
            out@ == indented_rep(msg@.subrange(0, i as int), pad),
            pad == header_len as nat + 1,
        decreases n - i,
    {
        let ghost pre = msg@.subrange(0, i as int);
        let ghost unit_start = out@;
        let c = msg.get_char(i);
        if c == '\n' {
            out.append("\n");
            append_spaces(&mut out, header_len);
            out.append(" ");
            proof {
                reveal_strlit("\n");
                reveal_strlit(" ");
                assert(out@ =~= unit_start + indent_unit(c, pad));
            }
        } else {
            let piece = msg.substring_char(i, i + 1);
            out.append(piece);
            proof {
                assert(piece@ =~= seq![c]);
                assert(out@ =~= unit_start + indent_unit(c, pad));
            }
        }
        proof {
            lemma_indented_concat(pre, seq![c], pad);
            assert(seq![c].drop_first() =~= Seq::<char>::empty());
            assert(indented_rep(Seq::<char>::empty(), pad) =~= Seq::<char>::empty());
            assert(indented_rep(seq![c], pad) =~= indent_unit(c, pad));
            assert(msg@.subrange(0, i as int + 1) =~= pre + seq![c]);
            assert(out@ =~= indented_rep(msg@.subrange(0, i as int + 1), pad));
        }
        i = i + 1;
    }
    proof {
        assert(msg@.subrange(0, n as int) =~= msg@);
    }
    out
}

/// Builds the two collector tags for a record, level first, then module.
pub fn build_tags(l: Level, module: &str) -> (r: Vec<String>)
    ensures
        r@.len() == 2,
        r@[0]@ == level_tag_rep(l),
        r@[1]@ == module_tag_rep(module@),
{
    let mut lt = String::new();
    lt.append("level:");
    lt.append(collector_level_name(l));
    let mut mt = String::new();
    mt.append("module:");
    mt.append(module);
    proof {
        assert(lt@ =~= level_tag_rep(l));
        assert(mt@ =~= module_tag_rep(module@));
    }
    let mut v: Vec<String> = Vec::new();
    v.push(lt);
    v.push(mt);
    v
}

/// Builds the collector event's title, `[CODE TIME] MODULE`.
pub fn build_event_title(l: Level, time: &str, module: &str) -> (r: String)
    ensures
        r@ == event_title_rep(l, time@, module@),
{
    let mut out = build_header(l, time, None);
    out.append(" ");
    out.append(module);
    proof {
        reveal_strlit(" ");
        assert(out@ =~= event_title_rep(l, time@, module@));
    }
    out
}

/// Renders the full console line for one record: painted header, one
/// separating space, the indented body, and a terminating newline.
pub fn render_line(l: Level, module: Option<&str>, message: &str, secs: u64, millis: u32) -> (r:
    String)
    requires
        millis < 1000,
    ensures
        r@ == line_rep(l, opt_view(module), message@, time_rep(secs as nat, millis as nat)),
{
    let time = render_time(secs, millis);
    let header = build_header(l, time.as_str(), module);
    let hlen = header.as_str().unicode_len();
    let mut out = paint_bold(display_color(l), header.as_str());
    out.append(" ");
    let body = indent_body(message, hlen);
    out.append(body.as_str());
    out.append("\n");
    proof {
        reveal_strlit(" ");
        reveal_strlit("\n");
        assert(out@ =~= line_rep(
            l,
            opt_view(module),
            message@,
            time_rep(secs as nat, millis as nat),
        ));
    }
    out
}

} // verus!
