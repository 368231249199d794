//! Cutting an input line into commands and words.
//!
//! A line is a pipeline: commands separated by `|`. A command is a sequence of
//! words separated by white space. Everything here is stated over the characters
//! of the line, `Seq<char>`, and nothing is interpreted: no quoting, no escapes.

use vstd::prelude::*;

verus! {

/// What separates the pieces of a line.
#[derive(Clone, Copy, Debug, PartialEq, Eq)]
pub enum Delimiter {
    /// The pipe sign, between the commands of a pipeline.
    Pipe,
    /// White space, between the words of a command.
    Blank,
}

/// The characters with the Unicode property `White_Space`.
pub open spec fn is_blank(c: char) -> bool {
    let n = c as u32;
    ||| 0x0009 <= n <= 0x000D
    ||| n == 0x0020
    ||| n == 0x0085
    ||| n == 0x00A0
    ||| n == 0x1680
    ||| 0x2000 <= n <= 0x200A
    ||| n == 0x2028
    ||| n == 0x2029
    ||| n == 0x202F
    ||| n == 0x205F
    ||| n == 0x3000
}

/// Whether `c` is white space.
pub fn is_whitespace(c: char) -> (b: bool)
    ensures
        b == is_blank(c),
{
    let n: u32 = c as u32;
    if n < 0x0080 {
        (0x0009 <= n && n <= 0x000D) || n == 0x0020
    } else if n < 0x2000 {
        n == 0x0085 || n == 0x00A0 || n == 0x1680
    } else {
        n <= 0x200A || n == 0x2028 || n == 0x2029 || n == 0x202F || n == 0x205F || n == 0x3000
    }
}

impl Delimiter {
    /// Whether `c` is a separator of this kind.
    pub open spec fn separates(self, c: char) -> bool {
        match self {
            Delimiter::Pipe => c == '|',
            Delimiter::Blank => is_blank(c),
        }
    }

    /// Whether `c` is a separator of this kind.
    pub fn is_separator(self, c: char) -> (b: bool)
        ensures
            b == self.separates(c),
    {
        match self {
            Delimiter::Pipe => c == '|',
            Delimiter::Blank => is_whitespace(c),
        }
    }
}

/// The fields of `s`: what stands before, between and after its separators.
///
/// Read from left to right, a separator closes the field being read and opens a
/// new, empty one; any other character joins the field being read. So there is
/// always one field more than there are separators, and a field may be empty.
pub open spec fn fields(s: Seq<char>, d: Delimiter) -> Seq<Seq<char>>
    decreases s.len(),
{
    if s.len() == 0 {
        seq![Seq::<char>::empty()]
    } else {
        let before = fields(s.drop_last(), d);
        if d.separates(s.last()) {
            before.push(Seq::<char>::empty())
        } else {
            before.drop_last().push(before.last().push(s.last()))
        }
    }
}

/// The words of `s`: its fields between white space, the empty ones left out.
pub open spec fn words(s: Seq<char>) -> Seq<Seq<char>> {
    fields(s, Delimiter::Blank).filter(|w: Seq<char>| w.len() > 0)
}

/// The commands of a line: the words of each field between pipe signs.
pub open spec fn pipeline(line: Seq<char>) -> Seq<Seq<Seq<char>>> {
    let segments = fields(line, Delimiter::Pipe);
    Seq::new(segments.len(), |i: int| words(segments[i]))
}

/// The command that a line asks to run: the first of its pipeline.
pub open spec fn first_command(line: Seq<char>) -> Seq<Seq<char>> {
    pipeline(line)[0]
}

/// The fields joined again, with `c` between each two neighbours.
pub open spec fn joined(parts: Seq<Seq<char>>, c: char) -> Seq<char>
    decreases parts.len(),
{
    if parts.len() == 0 {
        Seq::<char>::empty()
    } else if parts.len() == 1 {
        parts[0]
    } else {
        joined(parts.drop_last(), c).push(c) + parts.last()
    }
}

/// What is left of `s` without its separators: the other characters, in order.
pub open spec fn unseparated(s: Seq<char>, d: Delimiter) -> Seq<char> {
    s.filter(|c: char| !d.separates(c))
}

/// A line always has a first field: there is one field more than separators.
pub proof fn lemma_fields_count(s: Seq<char>, d: Delimiter)
    ensures
        fields(s, d).len() == 1 + s.filter(|c: char| d.separates(c)).len(),
    decreases s.len(),
{
    reveal(Seq::filter);
    if s.len() > 0 {
        lemma_fields_count(s.drop_last(), d);
    }
}

/// No field holds a separator.
pub proof fn lemma_fields_hold_no_separator(s: Seq<char>, d: Delimiter)
    ensures
        forall|i: int, j: int|
            0 <= i < fields(s, d).len() && 0 <= j < fields(s, d)[i].len() ==> !d.separates(
                #[trigger] fields(s, d)[i][j],
            ),
    decreases s.len(),
{
    if s.len() > 0 {
        lemma_fields_hold_no_separator(s.drop_last(), d);
        lemma_fields_count(s.drop_last(), d);
    }
}

/// Splitting loses nothing: the fields between pipe signs, joined by pipe signs,
/// are the line again.
pub proof fn lemma_pipe_fields_rejoin(s: Seq<char>)
    ensures
        joined(fields(s, Delimiter::Pipe), '|') == s,
    decreases s.len(),
{
    let d = Delimiter::Pipe;
    if s.len() > 0 {
        let front = s.drop_last();
        let before = fields(front, d);
        lemma_pipe_fields_rejoin(front);
        lemma_fields_count(front, d);
        if d.separates(s.last()) {
            assert(before.push(Seq::<char>::empty()).drop_last() == before);
        } else {
            let after = before.drop_last().push(before.last().push(s.last()));
            assert(after.drop_last() == before.drop_last());
            if before.len() > 1 {
                assert(joined(after, '|') == joined(before, '|').push(s.last()));
            }
        }
    }
}

/// Splitting neither drops nor adds nor moves a character that is no
/// separator: the fields, one after the other, are the text without its
/// separators.
pub proof fn lemma_fields_keep_the_text(s: Seq<char>, d: Delimiter)
    ensures
        fields(s, d).flatten() == unseparated(s, d),
    decreases s.len(),
{
    reveal(Seq::filter);
    let nothing = Seq::<char>::empty();
    if s.len() == 0 {
        Seq::<Seq<char>>::empty().lemma_flatten_push(nothing);
    } else {
        let front = s.drop_last();
        let before = fields(front, d);
        lemma_fields_keep_the_text(front, d);
        lemma_fields_count(front, d);
        if d.separates(s.last()) {
            before.lemma_flatten_push(nothing);
        } else {
            before.drop_last().lemma_flatten_push(before.last());
            before.drop_last().lemma_flatten_push(before.last().push(s.last()));
            assert(before.drop_last().push(before.last()) == before);
        }
    }
}

/// Leaving out the empty ones changes nothing in what the pieces spell.
proof fn lemma_empty_pieces_spell_nothing(parts: Seq<Seq<char>>)
    ensures
        parts.filter(|w: Seq<char>| w.len() > 0).flatten() == parts.flatten(),
    decreases parts.len(),
{
    reveal(Seq::filter);
    let keep = |w: Seq<char>| w.len() > 0;
    if parts.len() > 0 {
        let front = parts.drop_last();
        lemma_empty_pieces_spell_nothing(front);
        front.lemma_flatten_push(parts.last());
        front.filter(keep).lemma_flatten_push(parts.last());
        assert(front.push(parts.last()) == parts);
    }
}

/// The words of a text, one after the other, are the text without its white
/// space.
pub proof fn lemma_words_keep_the_text(s: Seq<char>)
    ensures
        words(s).flatten() == unseparated(s, Delimiter::Blank),
{
    lemma_fields_keep_the_text(s, Delimiter::Blank);
    lemma_empty_pieces_spell_nothing(fields(s, Delimiter::Blank));
}

/// Every word has at least one character, and none of them is white space.
pub proof fn lemma_words_are_solid(s: Seq<char>)
    ensures
        forall|i: int| 0 <= i < words(s).len() ==> (#[trigger] words(s)[i]).len() > 0,
        forall|i: int, j: int|
            0 <= i < words(s).len() && 0 <= j < words(s)[i].len() ==> !is_blank(
                #[trigger] words(s)[i][j],
            ),
{
    let all = fields(s, Delimiter::Blank);
    let keep = |w: Seq<char>| w.len() > 0;
    lemma_fields_hold_no_separator(s, Delimiter::Blank);
    assert forall|i: int| 0 <= i < words(s).len() implies (#[trigger] words(s)[i]).len() > 0 by {
        all.lemma_filter_pred(keep, i);
    }
    assert forall|i: int, j: int|
        0 <= i < words(s).len() && 0 <= j < words(s)[i].len() implies !is_blank(
        #[trigger] words(s)[i][j],
    ) by {
        all.lemma_filter_contains_rev(keep, words(s)[i]);
    }
}

/// The words of every command of a line are solid too, and hold no pipe sign:
/// a word is never empty and is free of both kinds of separators.
pub proof fn lemma_pipeline_words_are_solid(line: Seq<char>)
    ensures
        pipeline(line).len() >= 1,
        forall|i: int, j: int|
            0 <= i < pipeline(line).len() && 0 <= j < pipeline(line)[i].len() ==> (
            #[trigger] pipeline(line)[i][j]).len() > 0,
        forall|i: int, j: int, k: int|
            0 <= i < pipeline(line).len() && 0 <= j < pipeline(line)[i].len() && 0 <= k
                < pipeline(line)[i][j].len() ==> {
                let c = #[trigger] pipeline(line)[i][j][k];
                !is_blank(c) && c != '|'
            },
{
    let segments = fields(line, Delimiter::Pipe);
    lemma_fields_count(line, Delimiter::Pipe);
    lemma_fields_hold_no_separator(line, Delimiter::Pipe);
    assert forall|i: int, j: int|
        0 <= i < pipeline(line).len() && 0 <= j < pipeline(line)[i].len() implies (
    #[trigger] pipeline(line)[i][j]).len() > 0 by {
        lemma_words_are_solid(segments[i]);
    }
    assert forall|i: int, j: int, k: int|
        0 <= i < pipeline(line).len() && 0 <= j < pipeline(line)[i].len() && 0 <= k
            < pipeline(line)[i][j].len() implies {
        let c = #[trigger] pipeline(line)[i][j][k];
        !is_blank(c) && c != '|'
    } by {
        lemma_words_are_solid(segments[i]);
        lemma_word_is_part_of_its_text(segments[i], j, k);
    }
}

/// Every character of a field stands in the text that was cut.
proof fn lemma_field_is_part_of_its_text(s: Seq<char>, d: Delimiter, i: int, k: int)
    requires
        0 <= i < fields(s, d).len(),
        0 <= k < fields(s, d)[i].len(),
    ensures
        exists|at: int| 0 <= at < s.len() && s[at] == fields(s, d)[i][k],
    decreases s.len(),
{
    if s.len() > 0 {
        let front = s.drop_last();
        let before = fields(front, d);
        lemma_fields_count(front, d);
        if d.separates(s.last()) || i < before.len() - 1 || k < before.last().len() {
            lemma_field_is_part_of_its_text(front, d, i, k);
            let at = choose|at: int| 0 <= at < front.len() && front[at] == before[i][k];
            assert(s[at] == fields(s, d)[i][k]);
        } else {
            assert(s[s.len() - 1] == fields(s, d)[i][k]);
        }
    }
}

/// Every character of a word stands in the text that was cut.
proof fn lemma_word_is_part_of_its_text(s: Seq<char>, j: int, k: int)
    requires
        0 <= j < words(s).len(),
        0 <= k < words(s)[j].len(),
    ensures
        exists|at: int| 0 <= at < s.len() && s[at] == words(s)[j][k],
{
    let all = fields(s, Delimiter::Blank);
    let word = words(s)[j];
    all.lemma_filter_contains_rev(|w: Seq<char>| w.len() > 0, word);
    let i = choose|i: int| 0 <= i < all.len() && all[i] == word;
    lemma_field_is_part_of_its_text(s, Delimiter::Blank, i, k);
}

/// Cuts `text` at each separator of the kind `d`.
pub fn split_fields(text: &str, d: Delimiter) -> (out: Vec<String>)
    ensures
        out.deep_view() == fields(text@, d),
{
    broadcast use vstd::string::group_string_axioms;

    let mut out: Vec<String> = Vec::new();
    let mut current = String::new();
    for c in it: text.chars()
        invariant
            it.seq() == text@,
            fields(text@.take(it.index() as int), d) == out.deep_view().push(current@),
    {
        let ghost k = it.index() as int;
        assert(text@.take(k + 1).drop_last() == text@.take(k));
        if d.is_separator(c) {
            out.push(current);
            current = String::new();
        } else {
            current.push(c);
        }
    }
    assert(text@.take(text@.len() as int) == text@);
    out.push(current);
    out
}

/// Cuts `text` into its words.
pub fn split_words(text: &str) -> (out: Vec<String>)
    ensures
        out.deep_view() == words(text@),
{
    broadcast use vstd::string::group_string_axioms;

    let ghost keep = |w: Seq<char>| w.len() > 0;
    let mut out: Vec<String> = Vec::new();
    let mut current = String::new();
    proof {
        reveal(Seq::filter);
    }
    for c in it: text.chars()
        invariant
            it.seq() == text@,
            keep == |w: Seq<char>| w.len() > 0,
            fields(text@.take(it.index() as int), Delimiter::Blank).len() > 0,
            current@ == fields(text@.take(it.index() as int), Delimiter::Blank).last(),
            out.deep_view() == fields(
                text@.take(it.index() as int),
                Delimiter::Blank,
            ).drop_last().filter(keep),
    {
        let ghost k = it.index() as int;
        let ghost before = fields(text@.take(k), Delimiter::Blank);
        proof {
            reveal(Seq::filter);
            assert(text@.take(k + 1).drop_last() == text@.take(k));
        }
        if is_whitespace(c) {
            if !current.as_str().is_empty() {
                out.push(current);
            }
            current = String::new();
            assert(before.push(Seq::<char>::empty()).drop_last() == before);
        } else {
            current.push(c);
            assert(before.drop_last().push(before.last().push(c)).drop_last()
                == before.drop_last());
        }
    }
    proof {
        reveal(Seq::filter);
        assert(text@.take(text@.len() as int) == text@);
    }
    if !current.as_str().is_empty() {
        out.push(current);
    }
    out
}

/// Parses a line into the commands of its pipeline, each a list of words.
///
/// The result is never empty: a line without a pipe sign is one command, and a
/// line without any word is one command without words.
pub fn parse_line(line: &str) -> (commands: Vec<Vec<String>>)
    ensures
        commands.deep_view() == pipeline(line@),
        commands.len() >= 1,
{
    let segments = split_fields(line, Delimiter::Pipe);
    let mut commands: Vec<Vec<String>> = Vec::new();
    let mut i: usize = 0;
    while i < segments.len()
        invariant
            i <= segments.len(),
            segments.deep_view() == fields(line@, Delimiter::Pipe),
            commands.len() == i,
            forall|j: int|
                0 <= j < i ==> (#[trigger] commands[j]).deep_view() == pipeline(line@)[j],
        decreases segments.len() - i,
    {
        let command = split_words(segments[i].as_str());
        commands.push(command);
        i += 1;
    }
    proof {
        lemma_fields_count(line@, Delimiter::Pipe);
    }
    commands
}

} // verus!
