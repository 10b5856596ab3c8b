//! What addresses, process listings, program paths and retries come to.

use vstd::prelude::*;

use crate::system::ConnectStep;
use crate::system::PathModel;
use crate::system::ProgramPath;

verus! {

/// The number that decimal digits stand for.
pub open spec fn number(digits: Seq<char>) -> int
    decreases digits.len(),
{
    if digits.len() == 0 {
        0
    } else {
        10 * number(digits.drop_last()) + (digits.last() as int - '0' as int)
    }
}

/// Whether a text is all white space.
pub open spec fn blank(text: Seq<char>) -> bool {
    forall|i: int| 0 <= i < text.len() ==> crate::system::white_space(#[trigger] text[i])
}

/// Whether a text has no newline.
pub open spec fn one_line(text: Seq<char>) -> bool {
    forall|i: int| 0 <= i < text.len() ==> (#[trigger] text[i]) != '\n'
}

/// Decimal notation has digits alone, stands for the number, and starts with no zero but for zero
/// itself.
pub proof fn law_decimal_notation_stands_for_the_number(value: nat)
    ensures
        number(crate::system::decimal(value)) == value,
        crate::system::decimal(value).len() > 0,
        forall|i: int|
            0 <= i < crate::system::decimal(value).len() ==> '0' as int <= (
            #[trigger] crate::system::decimal(value)[i]) as int <= '9' as int,
        value > 0 ==> crate::system::decimal(value)[0] != '0',
    decreases value,
{
    reveal_with_fuel(number, 2);
    let text = crate::system::decimal(value);
    if value < 10 {
        assert(text.drop_last() =~= Seq::empty());
        assert(text.last() as int == 48 + value);
    } else {
        let front = crate::system::decimal(value / 10);
        law_decimal_notation_stands_for_the_number(value / 10);
        assert(text.drop_last() =~= front);
        assert(text.last() as int == 48 + value % 10);
        assert forall|i: int| 0 <= i < text.len() implies '0' as int <= (
        #[trigger] text[i]) as int <= '9' as int by {
            if i < front.len() {
                assert(text[i] == front[i]);
            }
        }
        assert(text[0] == front[0]);
    }
}

/// The document is reached on this machine, at the port, under `/sync`; a listing asks for the
/// port by its number.
pub proof fn law_addresses_name_the_port(port: nat)
    ensures
        crate::system::sync_address(port) == "ws://127.0.0.1:"@ + crate::system::decimal(port)
            + "/sync"@,
        crate::system::port_pattern(port) == ":"@ + crate::system::decimal(port),
{
}

/// White space is what Unicode counts as such.
pub proof fn law_white_space_is_that_of_unicode(c: char)
    ensures
        crate::system::white_space(c) <==> (c == '\u{9}' || c == '\u{a}' || c == '\u{b}' || c
            == '\u{c}' || c == '\u{d}' || c == '\u{20}' || c == '\u{85}' || c == '\u{a0}' || c
            == '\u{1680}' || c == '\u{2000}' || c == '\u{2001}' || c == '\u{2002}' || c
            == '\u{2003}' || c == '\u{2004}' || c == '\u{2005}' || c == '\u{2006}' || c
            == '\u{2007}' || c == '\u{2008}' || c == '\u{2009}' || c == '\u{200a}' || c
            == '\u{2028}' || c == '\u{2029}' || c == '\u{202f}' || c == '\u{205f}' || c
            == '\u{3000}'),
{
}

/// A trimmed text is the text but for white space at its ends: what was taken off is white space,
/// and what is left neither starts nor ends with any.
pub proof fn law_trimming_takes_off_white_space_alone(text: Seq<char>)
    ensures
        exists|left: Seq<char>, right: Seq<char>|
            #[trigger] blank(left) && #[trigger] blank(right) && text == left
                + crate::system::trimmed(text) + right,
        crate::system::trimmed(text).len() > 0 ==> !crate::system::white_space(
            crate::system::trimmed(text)[0],
        ) && !crate::system::white_space(crate::system::trimmed(text).last()),
{
    let start = crate::system::trimmed_start(text);
    let left = lemma_start(text);
    let right = lemma_end(start);
    let inner = crate::system::trimmed(text);
    assert(text =~= left + inner + right);
    if inner.len() > 0 {
        assert(inner[0] == start[0]);
    }
}

/// What is taken off the start of a text.
proof fn lemma_start(text: Seq<char>) -> (left: Seq<char>)
    ensures
        blank(left),
        text == left + crate::system::trimmed_start(text),
        crate::system::trimmed_start(text).len() > 0 ==> !crate::system::white_space(
            crate::system::trimmed_start(text)[0],
        ),
    decreases text.len(),
{
    if text.len() > 0 && crate::system::white_space(text[0]) {
        let rest = lemma_start(text.drop_first());
        let left = seq![text[0]] + rest;
        assert forall|i: int| 0 <= i < left.len() implies crate::system::white_space(
            #[trigger] left[i],
        ) by {
            if i > 0 {
                assert(left[i] == rest[i - 1]);
            }
        }
        assert(text =~= seq![text[0]] + text.drop_first());
        assert(text =~= left + crate::system::trimmed_start(text));
        left
    } else {
        assert(text =~= Seq::<char>::empty() + text);
        Seq::empty()
    }
}

/// What is taken off the end of a text.
proof fn lemma_end(text: Seq<char>) -> (right: Seq<char>)
    ensures
        blank(right),
        text == crate::system::trimmed_end(text) + right,
        crate::system::trimmed_end(text).len() > 0 ==> !crate::system::white_space(
            crate::system::trimmed_end(text).last(),
        ),
    decreases text.len(),
{
    if text.len() > 0 && crate::system::white_space(text.last()) {
        let rest = lemma_end(text.drop_last());
        let right = rest.push(text.last());
        assert forall|i: int| 0 <= i < right.len() implies crate::system::white_space(
            #[trigger] right[i],
        ) by {
            if i < rest.len() {
                assert(right[i] == rest[i]);
            }
        }
        assert(text =~= text.drop_last().push(text.last()));
        assert(text =~= crate::system::trimmed_end(text) + right);
        right
    } else {
        assert(text =~= text + Seq::<char>::empty());
        Seq::empty()
    }
}

/// Where the first line of a text ends.
proof fn lemma_line_end(line: Seq<char>, rest: Seq<char>)
    requires
        one_line(line),
        rest.len() == 0 || rest[0] == '\n',
    ensures
        crate::system::line_end(line + rest) == line.len(),
    decreases line.len(),
{
    let text = line + rest;
    if line.len() > 0 {
        assert(text[0] == line[0]);
        let after = line.drop_first();
        assert(text.drop_first() =~= after + rest);
        assert forall|i: int| 0 <= i < after.len() implies (#[trigger] after[i]) != '\n' by {
            assert(after[i] == line[i + 1]);
        }
        lemma_line_end(after, rest);
    } else if rest.len() > 0 {
        assert(text[0] == rest[0]);
    }
}

/// A listing gives one id for each line, without the white space at its ends: a line with a
/// newline behind it, then those of what follows; what stands behind the last newline, unless it
/// is empty. An empty text lists nothing.
pub proof fn law_listing_gives_its_lines(line: Seq<char>, rest: Seq<char>)
    requires
        one_line(line),
    ensures
        crate::system::trimmed_lines(line + seq!['\n'] + rest) == seq![
            crate::system::trimmed(line),
        ] + crate::system::trimmed_lines(rest),
        line.len() > 0 ==> crate::system::trimmed_lines(line) == seq![
            crate::system::trimmed(line),
        ],
        crate::system::trimmed_lines(Seq::empty()) == Seq::<Seq<char>>::empty(),
{
    let text = line + seq!['\n'] + rest;
    assert(text =~= line + (seq!['\n'] + rest));
    lemma_line_end(line, seq!['\n'] + rest);
    assert(text.take(line.len() as int) =~= line);
    assert(text.skip(line.len() as int + 1) =~= rest);
    if line.len() > 0 {
        assert(line + Seq::<char>::empty() =~= line);
        lemma_line_end(line, Seq::empty());
        assert(line.take(line.len() as int) =~= line);
        assert(crate::system::trimmed_lines(line) =~= seq![crate::system::trimmed(line)]);
    }
}

/// The window host's program stands beside the running one, one level up from its path. Where it
/// is not there, it stands in the build output of the workspace, two levels up; where the path of
/// the running program is not known, in the build output under the working directory.
pub proof fn law_host_program_stands_beside_or_in_the_build_output(beside: bool)
    ensures
        crate::system::host_path(true, true) == (PathModel {
            from_program: true,
            levels_up: 1,
            segments: seq!["web-host"@],
        }),
        crate::system::host_path(true, false) == (PathModel {
            from_program: true,
            levels_up: 2,
            segments: seq!["web-host"@] + crate::system::host_path(false, beside).segments,
        }),
        crate::system::host_path(false, beside) == (PathModel {
            from_program: false,
            levels_up: 0,
            segments: seq!["target"@, "debug"@, "web-host"@],
        }),
{
    assert(crate::system::host_path(true, false).segments =~= seq!["web-host"@]
        + crate::system::host_path(false, beside).segments);
}

/// The model of a [`ProgramPath`] shows each of its fields.
pub proof fn law_path_model_shows_every_field(path: ProgramPath)
    ensures
        path.deep_view().from_program == path.from_program,
        path.deep_view().levels_up == path.levels_up,
        path.deep_view().segments == path.segments.deep_view(),
{
}

/// A try that reached the document ends the tries. One that failed is followed by half a second's
/// wait, and then by another exactly while fewer than thirty were made.
pub proof fn law_tries_end_with_success_or_after_thirty(tries_made: nat)
    ensures
        crate::system::step_after(tries_made, true) is Connected,
        crate::system::step_after(tries_made, false) matches ConnectStep::Wait {
            millis,
            try_again,
        } && millis == 500 && (try_again <==> tries_made <= 29),
{
}

} // verus!
