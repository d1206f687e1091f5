//! The watch-along file: two lines of text that hold an episode number
//! and an elapsed time.
//!
//! ```text
//! Episodio: 1
//! Tempo: 00:00
//! ```
//!
//! On each line the value is the second word; what the first word says is
//! not looked at.

use vstd::prelude::*;
use vstd::string::*;

use crate::numbers::{i32_of_text, i32_to_text, parse_i32, signed_decimal};
use crate::text::{
    chars_of,
    lemma_split_nonempty,
    lemma_split_two,
    lemma_texts_push,
    split,
    split_on,
    string_of,
    texts,
};

verus! {

/// What a new watch-along file holds.
pub const DEFAULT_CONTENT: &'static str = "Episodio: 1\nTempo: 00:00";

/// The time of a timer that was reset.
pub const ZERO_TIME: &'static str = "00:00";

/// Whether `c` is white space, as Unicode defines it.
pub open spec fn is_space(c: char) -> bool {
    let u = c as u32;
    ||| 0x09 <= u <= 0x0d
    ||| u == 0x20
    ||| u == 0x85
    ||| u == 0xa0
    ||| u == 0x1680
    ||| 0x2000 <= u <= 0x200a
    ||| u == 0x2028
    ||| u == 0x2029
    ||| u == 0x202f
    ||| u == 0x205f
    ||| u == 0x3000
}

/// Whether `c` is white space.
pub fn is_whitespace(c: char) -> (r: bool)
    ensures
        r == is_space(c),
{
    let u = c as u32;
    (0x09 <= u && u <= 0x0d) || u == 0x20 || u == 0x85 || u == 0xa0 || u == 0x1680 || (0x2000 <= u
        && u <= 0x200a) || u == 0x2028 || u == 0x2029 || u == 0x202f || u == 0x205f || u == 0x3000
}

/// Length of the longest prefix of `s` whose characters are all white
/// space (`space` set) or all not white space (`space` clear).
pub open spec fn run_len(s: Seq<char>, space: bool) -> nat
    decreases s.len(),
{
    if s.len() == 0 || is_space(s[0]) != space {
        0
    } else {
        1 + run_len(s.drop_first(), space)
    }
}

/// `run_len` is the index of the first character of the other kind, or
/// the length of `s` where there is none.
pub proof fn lemma_run_len(s: Seq<char>, space: bool)
    ensures
        run_len(s, space) <= s.len(),
        forall|j: int| 0 <= j < run_len(s, space) ==> is_space(s[j]) == space,
        run_len(s, space) < s.len() ==> is_space(s[run_len(s, space) as int]) != space,
    decreases s.len(),
{
    if s.len() == 0 || is_space(s[0]) != space {
    } else {
        let t = s.drop_first();
        lemma_run_len(t, space);
        assert forall|j: int| 0 <= j < run_len(s, space) implies is_space(s[j]) == space by {
            if j > 0 {
                assert(s[j] == t[j - 1]);
            }
        }
    }
}

/// A position `n` before which every character is of the one kind, and
/// which holds a character of the other kind or is the end, is `run_len`.
pub proof fn lemma_run_len_is(s: Seq<char>, space: bool, n: int)
    requires
        0 <= n <= s.len(),
        forall|j: int| 0 <= j < n ==> is_space(s[j]) == space,
        n < s.len() ==> is_space(s[n]) != space,
    ensures
        run_len(s, space) == n,
{
    lemma_run_len(s, space);
    let m = run_len(s, space) as int;
    if m < n {
        assert(is_space(s[m]) == space);
    } else if n < m {
        assert(is_space(s[n]) == space);
    }
}

/// The words of `s`: the maximal runs of characters that are not white
/// space, in order.
pub open spec fn words(s: Seq<char>) -> Seq<Seq<char>>
    decreases s.len(),
{
    let lead = run_len(s, true);
    if lead >= s.len() {
        Seq::empty()
    } else {
        let rest = s.skip(lead as int);
        let n = run_len(rest, false);
        if 0 < n <= rest.len() {
            seq![rest.take(n as int)] + words(rest.skip(n as int))
        } else {
            Seq::empty()
        }
    }
}

/// A line without the carriage return at its end, where it has one.
pub open spec fn strip_cr(line: Seq<char>) -> Seq<char> {
    if line.len() > 0 && line.last() == '\r' {
        line.drop_last()
    } else {
        line
    }
}

/// The lines of `s`. A line ends with a line feed, or with a carriage
/// return and a line feed; neither is part of the line. What follows the
/// last line feed is a line too, unless it is empty.
pub open spec fn text_lines(s: Seq<char>) -> Seq<Seq<char>> {
    let fields = split_on(s, '\n');
    let count = if fields.last().len() == 0 {
        fields.len() - 1
    } else {
        fields.len() as int
    };
    Seq::new(
        count as nat,
        |i: int|
            if i < fields.len() - 1 {
                strip_cr(fields[i])
            } else {
                fields[i]
            },
    )
}

/// The episode and the time that a watch-along file holds: the second
/// word of its first line and the second word of its second line.
/// Nothing where a line or a word is missing.
pub open spec fn file_values(content: Seq<char>) -> Option<(Seq<char>, Seq<char>)> {
    let lines = text_lines(content);
    if lines.len() >= 2 && words(lines[0]).len() >= 2 && words(lines[1]).len() >= 2 {
        Some((words(lines[0])[1], words(lines[1])[1]))
    } else {
        None
    }
}

/// The time that a watch-along file holds; empty where the file does not
/// read.
pub open spec fn file_time(content: Seq<char>) -> Seq<char> {
    match file_values(content) {
        Some((_, time)) => time,
        None => Seq::empty(),
    }
}

/// The content of a watch-along file that holds `episode` and `time`.
pub open spec fn file_text(episode: Seq<char>, time: Seq<char>) -> Seq<char> {
    "Episodio: "@ + episode + "\nTempo: "@ + time
}

/// Whether `w` can stand as one word: it is not empty and holds no white
/// space.
pub open spec fn is_word(w: Seq<char>) -> bool {
    w.len() > 0 && forall|i: int| 0 <= i < w.len() ==> !is_space(#[trigger] w[i])
}

/// A single word is the only word of its text.
pub proof fn lemma_words_one(a: Seq<char>)
    requires
        is_word(a),
    ensures
        words(a) == seq![a],
{
    lemma_run_len_is(a, true, 0);
    assert(a.skip(0) =~= a);
    lemma_run_len_is(a, false, a.len() as int);
    assert(a.take(a.len() as int) =~= a);
    let rest = a.skip(a.len() as int);
    assert(rest =~= Seq::<char>::empty());
    lemma_run_len_is(rest, true, 0);
    assert(words(rest) =~= Seq::<Seq<char>>::empty());
    assert(seq![a] + Seq::<Seq<char>>::empty() =~= seq![a]);
}

/// Two words with a blank between them are the two words of their text.
pub proof fn lemma_words_two(a: Seq<char>, b: Seq<char>)
    requires
        is_word(a),
        is_word(b),
    ensures
        words(a + seq![' '] + b) == seq![a, b],
{
    let line = a + seq![' '] + b;
    let tail = seq![' '] + b;
    assert(!is_space(line[0])) by {
        assert(line[0] == a[0]);
    }
    lemma_run_len_is(line, true, 0);
    assert(line.skip(0) =~= line);
    assert forall|j: int| 0 <= j < a.len() implies !is_space(line[j]) by {
        assert(line[j] == a[j]);
    }
    assert(line[a.len() as int] == ' ');
    lemma_run_len_is(line, false, a.len() as int);
    assert(line.take(a.len() as int) =~= a);
    assert(line.skip(a.len() as int) =~= tail);
    assert(tail[0] == ' ');
    assert(!is_space(tail[1])) by {
        assert(tail[1] == b[0]);
    }
    lemma_run_len_is(tail, true, 1);
    assert(tail.skip(1) =~= b);
    lemma_words_one(b);
    assert(words(tail) == words(b)) by {
        lemma_run_len_is(b, true, 0);
        assert(b.skip(0) =~= b);
    }
    assert(seq![a] + seq![b] =~= seq![a, b]);
}

/// What is written into a watch-along file reads back: a file written
/// with an episode and a time, each one word, holds that episode and that
/// time.
pub proof fn lemma_file_reads_back(episode: Seq<char>, time: Seq<char>)
    requires
        is_word(episode),
        is_word(time),
    ensures
        file_values(file_text(episode, time)) == Some((episode, time)),
{
    reveal_strlit("Episodio: ");
    reveal_strlit("\nTempo: ");
    let head = "Episodio: "@.subrange(0, 9);
    let label = "\nTempo: "@.subrange(1, 7);
    let first = head + seq![' '] + episode;
    let second = label + seq![' '] + time;
    assert(is_word(head));
    assert(is_word(label));
    assert(file_text(episode, time) =~= first + seq!['\n'] + second);
    assert(!first.contains('\n')) by {
        if first.contains('\n') {
            let i = choose|i: int| 0 <= i < first.len() && first[i] == '\n';
            if i >= 10 {
                assert(first[i] == episode[i - 10]);
            }
        }
    }
    assert(!second.contains('\n')) by {
        if second.contains('\n') {
            let i = choose|i: int| 0 <= i < second.len() && second[i] == '\n';
            if i >= 7 {
                assert(second[i] == time[i - 7]);
            }
        }
    }
    lemma_split_two(first, second, '\n');
    let fields = split_on(file_text(episode, time), '\n');
    assert(fields.last() == second);
    assert(first.last() == episode.last());
    assert(!is_space(episode[episode.len() - 1]));
    let lines = text_lines(file_text(episode, time));
    assert(lines.len() == 2);
    assert(lines[0] == first);
    assert(lines[1] == second);
    lemma_words_two(head, episode);
    lemma_words_two(label, time);
}

/// The words of `line`, as owned strings.
pub fn split_words(line: &str) -> (found: Vec<String>)
    ensures
        texts(found@) == words(line@),
{
    let chars = chars_of(line);
    let mut found: Vec<String> = Vec::new();
    let mut i: usize = 0;
    proof {
        assert(chars@.skip(0) =~= chars@);
        assert(texts(found@) =~= Seq::<Seq<char>>::empty());
    }
    loop
        invariant
            chars@ == line@,
            i <= chars.len(),
            words(line@) == texts(found@) + words(chars@.skip(i as int)),
        decreases chars.len() - i,
    {
        let ghost tail = chars@.skip(i as int);
        let mut j: usize = i;
        while j < chars.len() && is_whitespace(chars[j])
            invariant
                i <= j <= chars.len(),
                forall|k: int| i <= k < j ==> is_space(chars@[k]),
            decreases chars.len() - j,
        {
            j += 1;
        }
        proof {
            lemma_run_len_is(tail, true, j - i);
        }
        if j == chars.len() {
            assert(words(tail) =~= Seq::<Seq<char>>::empty());
            assert(texts(found@) + words(tail) =~= texts(found@));
            return found;
        }
        let ghost rest = tail.skip(j - i);
        assert(rest =~= chars@.skip(j as int));
        let mut k: usize = j + 1;
        while k < chars.len() && !is_whitespace(chars[k])
            invariant
                j < k <= chars.len(),
                !is_space(chars@[j as int]),
                forall|m: int| j <= m < k ==> !is_space(chars@[m]),
            decreases chars.len() - k,
        {
            k += 1;
        }
        let word = string_of(&chars, j, k);
        proof {
            lemma_run_len_is(rest, false, k - j);
            assert(rest.take(k - j) =~= word@);
            assert(rest.skip(k - j) =~= chars@.skip(k as int));
            lemma_texts_push(found@, word);
            assert(words(tail) == seq![word@] + words(chars@.skip(k as int)));
            assert(texts(found@) + words(tail) =~= texts(found@.push(word)) + words(
                chars@.skip(k as int),
            ));
        }
        found.push(word);
        i = k;
    }
}

/// The lines of `content`, as owned strings.
pub fn split_lines(content: &str) -> (lines: Vec<String>)
    ensures
        texts(lines@) == text_lines(content@),
{
    let fields = split(content, '\n');
    proof {
        lemma_split_nonempty(content@, '\n');
        assert(texts(fields@).len() == fields@.len());
    }
    let last = fields.len() - 1;
    let ghost all = texts(fields@);
    let mut lines: Vec<String> = Vec::new();
    assert(texts(lines@) =~= Seq::<Seq<char>>::empty());
    let mut i: usize = 0;
    while i < last
        invariant
            i <= last,
            last == fields.len() - 1,
            all == texts(fields@),
            texts(lines@).len() == i,
            forall|k: int| 0 <= k < i ==> (#[trigger] texts(lines@)[k]) == strip_cr(all[k]),
        decreases last - i,
    {
        let chars = chars_of(fields[i].as_str());
        assert(all[i as int] == fields@[i as int]@);
        let end: usize = if chars.len() > 0 && chars[chars.len() - 1] == '\r' {
            chars.len() - 1
        } else {
            chars.len()
        };
        let line = string_of(&chars, 0, end);
        proof {
            assert(line@ =~= strip_cr(all[i as int]));
            lemma_texts_push(lines@, line);
        }
        lines.push(line);
        i += 1;
    }
    let tail = chars_of(fields[last].as_str());
    assert(all[last as int] == fields@[last as int]@);
    if tail.len() > 0 {
        let line = string_of(&tail, 0, tail.len());
        proof {
            assert(line@ =~= all[last as int]);
            lemma_texts_push(lines@, line);
        }
        lines.push(line);
    }
    assert(all.last() == all[last as int]);
    assert(texts(lines@) =~= text_lines(content@));
    lines
}

/// The two values of a watch-along file.
#[derive(Debug, Clone, PartialEq, Eq)]
pub struct FileContent {
    /// The episode, as the file writes it.
    pub episode: String,
    /// The elapsed time, as the file writes it.
    pub time: String,
}

/// Reads the episode and the time off the content of a watch-along file.
/// Nothing where the content has fewer than two lines, or one of the two
/// lines fewer than two words.
pub fn read_file(content: &str) -> (r: Option<FileContent>)
    ensures
        match r {
            Some(values) => file_values(content@) == Some((values.episode@, values.time@)),
            None => file_values(content@) is None,
        },
{
    let lines = split_lines(content);
    assert(texts(lines@).len() == lines@.len());
    if lines.len() < 2 {
        return None;
    }
    assert(texts(lines@)[0] == lines@[0]@);
    assert(texts(lines@)[1] == lines@[1]@);
    let mut first = split_words(lines[0].as_str());
    let mut second = split_words(lines[1].as_str());
    assert(texts(first@).len() == first@.len());
    assert(texts(second@).len() == second@.len());
    if first.len() < 2 || second.len() < 2 {
        return None;
    }
    assert(texts(first@)[1] == first@[1]@);
    assert(texts(second@)[1] == second@[1]@);
    let episode = first.swap_remove(1);
    let time = second.swap_remove(1);
    Some(FileContent { episode, time })
}

/// Writes the content of a watch-along file that holds `episode` and
/// `time`.
pub fn write_content(episode: &str, time: &str) -> (content: String)
    ensures
        content@ == file_text(episode@, time@),
{
    let mut content = String::from_str("Episodio: ");
    content.append(episode);
    content.append("\nTempo: ");
    content.append(time);
    content
}

/// What a change of the episode leaves behind: the new content of the
/// file and the new episode, as the caller announces it.
#[derive(Debug, Clone, PartialEq, Eq)]
pub struct EpisodeUpdate {
    /// The new content of the file.
    pub content: String,
    /// The new episode number, in decimal.
    pub episode: String,
}

/// The episode after a change by `delta`, where the file's episode is a
/// number and the new number fits.
pub open spec fn changed_episode(content: Seq<char>, delta: int) -> Option<int> {
    match file_values(content) {
        Some((episode, _)) => match i32_of_text(episode) {
            Some(n) => if i32::MIN <= n + delta <= i32::MAX {
                Some(n + delta)
            } else {
                None
            },
            None => None,
        },
        None => None,
    }
}

/// Changes the episode of a watch-along file by `delta` and keeps its
/// time. Nothing where the file does not read, its episode is not a
/// number, or the new number does not fit.
fn change_episode(content: &str, delta: i32) -> (r: Option<EpisodeUpdate>)
    requires
        delta == 1 || delta == -1,
    ensures
        match r {
            Some(update) => {
                &&& changed_episode(content@, delta as int) matches Some(n)
                &&& update.episode@ == signed_decimal(n)
                &&& update.content@ == file_text(signed_decimal(n), file_time(content@))
            },
            None => changed_episode(content@, delta as int) is None,
        },
{
    let values = match read_file(content) {
        Some(values) => values,
        None => {
            return None;
        },
    };
    let digits = chars_of(values.episode.as_str());
    let episode = match parse_i32(&digits) {
        Some(episode) => episode,
        None => {
            return None;
        },
    };
    let changed = match episode.checked_add(delta) {
        Some(changed) => changed,
        None => {
            return None;
        },
    };
    let text = i32_to_text(changed);
    let content = write_content(text.as_str(), values.time.as_str());
    Some(EpisodeUpdate { content, episode: text })
}

/// Moves a watch-along file on to the next episode.
pub fn add_episode(content: &str) -> (r: Option<EpisodeUpdate>)
    ensures
        match r {
            Some(update) => {
                &&& changed_episode(content@, 1) matches Some(n)
                &&& update.episode@ == signed_decimal(n)
                &&& update.content@ == file_text(signed_decimal(n), file_time(content@))
            },
            None => changed_episode(content@, 1) is None,
        },
{
    change_episode(content, 1)
}

/// Moves a watch-along file back to the episode before.
pub fn dec_episode(content: &str) -> (r: Option<EpisodeUpdate>)
    ensures
        match r {
            Some(update) => {
                &&& changed_episode(content@, -1) matches Some(n)
                &&& update.episode@ == signed_decimal(n)
                &&& update.content@ == file_text(signed_decimal(n), file_time(content@))
            },
            None => changed_episode(content@, -1) is None,
        },
{
    change_episode(content, -1)
}

/// The content of a watch-along file that starts over: the first
/// episode, no time elapsed.
pub fn reset_file() -> (content: String)
    ensures
        content@ == DEFAULT_CONTENT@,
{
    String::from_str(DEFAULT_CONTENT)
}

/// The content of a watch-along file whose timer starts over: the
/// file's episode, written as a number, and no time elapsed. Nothing
/// where the file does not read or its episode is not a number.
pub fn reset_timer(content: &str) -> (r: Option<String>)
    ensures
        match r {
            Some(fresh) => changed_episode(content@, 0) matches Some(n) && fresh@ == file_text(
                signed_decimal(n),
                ZERO_TIME@,
            ),
            None => changed_episode(content@, 0) is None,
        },
{
    let values = match read_file(content) {
        Some(values) => values,
        None => {
            return None;
        },
    };
    let digits = chars_of(values.episode.as_str());
    match parse_i32(&digits) {
        Some(episode) => {
            let text = i32_to_text(episode);
            Some(write_content(text.as_str(), ZERO_TIME))
        },
        None => None,
    }
}

} // verus!
