//! Parser for the lines of a publish/subscribe workload file.
//!
//! A line is a sequence of words separated by whitespace. `SUB` lines carry
//! a subscription id, a subscriber id and the four numbers of an agent name;
//! `PUB` lines carry a publication id, the four numbers of an agent name, a
//! receiver count and that many receiver ids.

use vstd::prelude::*;

verus! {

/// Unicode `White_Space`, the whitespace that separates words.
pub open spec fn is_ws(c: char) -> bool {
    ||| ('\u{9}' <= c && c <= '\u{d}')
    ||| c == ' '
    ||| c == '\u{85}'
    ||| c == '\u{a0}'
    ||| c == '\u{1680}'
    ||| ('\u{2000}' <= c && c <= '\u{200a}')
    ||| c == '\u{2028}'
    ||| c == '\u{2029}'
    ||| c == '\u{202f}'
    ||| c == '\u{205f}'
    ||| c == '\u{3000}'
}

/// The words of `s`: its maximal runs of non-whitespace characters, in order.
/// A non-whitespace character right after another one extends the last word;
/// after whitespace, or at the start, it begins a new word.
pub open spec fn words(s: Seq<char>) -> Seq<Seq<char>>
    decreases s.len(),
{
    if s.len() == 0 {
        Seq::empty()
    } else if is_ws(s.last()) {
        words(s.drop_last())
    } else if s.len() >= 2 && !is_ws(s[s.len() - 2]) {
        let w = words(s.drop_last());
        w.update(w.len() - 1, w.last().push(s.last()))
    } else {
        words(s.drop_last()).push(seq![s.last()])
    }
}

/// Every word is non-empty and holds no whitespace.
pub proof fn law_words_are_nonempty_runs(s: Seq<char>)
    ensures
        forall|i: int| 0 <= i < words(s).len() ==> {
            &&& (#[trigger] words(s)[i]).len() > 0
            &&& forall|k: int| 0 <= k < words(s)[i].len() ==> !is_ws(#[trigger] words(s)[i][k])
        },
    decreases s.len(),
{
    if s.len() > 0 {
        law_words_are_nonempty_runs(s.drop_last());
        let w = words(s.drop_last());
        if !is_ws(s.last()) && s.len() >= 2 && !is_ws(s[s.len() - 2]) {
            lemma_words_nonempty_when_ending_in_word(s.drop_last());
            let nw = w.update(w.len() - 1, w.last().push(s.last()));
            assert forall|i: int| 0 <= i < nw.len() implies {
                &&& (#[trigger] nw[i]).len() > 0
                &&& forall|k: int| 0 <= k < nw[i].len() ==> !is_ws(#[trigger] nw[i][k])
            } by {
                if i == nw.len() - 1 {
                    assert forall|k: int| 0 <= k < nw[i].len() implies !is_ws(#[trigger] nw[i][k]) by {
                        if k < w.last().len() {
                            assert(nw[i][k] == w[w.len() - 1][k]);
                        }
                    }
                } else {
                    assert(nw[i] == w[i]);
                }
            }
        } else if !is_ws(s.last()) {
            let nw = w.push(seq![s.last()]);
            assert forall|i: int| 0 <= i < nw.len() implies {
                &&& (#[trigger] nw[i]).len() > 0
                &&& forall|k: int| 0 <= k < nw[i].len() ==> !is_ws(#[trigger] nw[i][k])
            } by {
                if i < w.len() {
                    assert(nw[i] == w[i]);
                }
            }
        }
    }
}

/// A text that ends in a non-whitespace character has at least one word.
proof fn lemma_words_nonempty_when_ending_in_word(s: Seq<char>)
    requires
        s.len() > 0,
        !is_ws(s.last()),
    ensures
        words(s).len() > 0,
    decreases s.len(),
{
    if s.len() >= 2 && !is_ws(s[s.len() - 2]) {
        assert(s.drop_last().last() == s[s.len() - 2]);
        lemma_words_nonempty_when_ending_in_word(s.drop_last());
    }
}

/// The character views of a sequence of strings.
pub open spec fn string_views(v: Seq<String>) -> Seq<Seq<char>> {
    v.map_values(|t: String| t@)
}

/// Whether `c` is Unicode whitespace.
pub fn is_space(c: char) -> (b: bool)
    ensures
        b == is_ws(c),
{
    ('\u{9}' <= c && c <= '\u{d}') || c == ' ' || c == '\u{85}' || c == '\u{a0}' || c == '\u{1680}'
        || ('\u{2000}' <= c && c <= '\u{200a}') || c == '\u{2028}' || c == '\u{2029}'
        || c == '\u{202f}' || c == '\u{205f}' || c == '\u{3000}'
}

/// Splits `line` into its words.
pub fn split_words(line: &str) -> (toks: Vec<String>)
    ensures
        string_views(toks@) == words(line@),
{
    let mut toks: Vec<String> = Vec::new();
    let mut start: usize = 0;
    let mut in_word = false;
    let mut pos: usize = 0;
    let n = line.unicode_len();
    for c in it: line.chars()
        invariant
            n == line@.len(),
            pos == it.index(),
            pos <= n,
            it.seq() == line@,
            start <= pos,
            in_word <==> (pos > 0 && !is_ws(line@[pos - 1])),
            in_word ==> string_views(toks@).push(line@.subrange(start as int, pos as int))
                == words(line@.take(pos as int)),
            !in_word ==> string_views(toks@) == words(line@.take(pos as int)),
    {
        let ghost old_toks = toks;
        proof {
            let prefix = line@.take(pos as int);
            let next = line@.take(pos + 1);
            assert(next =~= prefix.push(c));
            assert(next.drop_last() =~= prefix);
            if next.len() >= 2 {
                assert(next[next.len() - 2] == line@[pos - 1]);
            }
            if !is_ws(c) && in_word {
                let w = words(prefix);
                assert(words(next) == w.update(w.len() - 1, w.last().push(c)));
            }
            if !is_ws(c) && !in_word {
                assert(words(next) == words(prefix).push(seq![c]));
                assert(line@.subrange(pos as int, pos + 1) =~= seq![c]);
            }
        }
        if is_space(c) {
            if in_word {
                let w = String::from_str(line.substring_char(start, pos));
                toks.push(w);
                proof {
                    assert(string_views(toks@) =~= string_views(old_toks@).push(line@.subrange(start as int, pos as int)));
                }
            }
            in_word = false;
        } else {
            if !in_word {
                start = pos;
            }
            in_word = true;
            proof {
                assert(line@.subrange(start as int, pos + 1) =~= line@.subrange(start as int, pos as int).push(c));
            }
        }
        pos += 1;
    }
    proof {
        assert(line@.take(pos as int) =~= line@);
    }
    if in_word {
        let ghost old_toks = toks;
        let w = String::from_str(line.substring_char(start, pos));
        toks.push(w);
        proof {
            assert(string_views(toks@) =~= string_views(old_toks@).push(line@.subrange(start as int, pos as int)));
        }
    }
    toks
}


/// Why a word is not a `u64`.
#[derive(Debug, Clone, Copy, PartialEq, Eq, Structural)]
pub enum IntErrorKind {
    /// the word is empty
    Empty,
    /// a character is not a decimal digit
    InvalidDigit,
    /// the value exceeds `u64::MAX`
    PosOverflow,
}

/// Whether `c` is a decimal digit.
pub open spec fn is_digit(c: char) -> bool {
    '0' <= c && c <= '9'
}

/// The value of the decimal digit `c`.
pub open spec fn digit_value(c: char) -> int {
    c as int - '0' as int
}

/// Reads the digits of `d` from left to right; the first character that is
/// no digit, or the first digit that takes the value past `u64::MAX`, decides
/// the error.
pub open spec fn scan_digits(d: Seq<char>) -> Result<int, IntErrorKind>
    decreases d.len(),
{
    if d.len() == 0 {
        Ok(0)
    } else {
        match scan_digits(d.drop_last()) {
            Err(e) => Err(e),
            Ok(v) => if !is_digit(d.last()) {
                Err(IntErrorKind::InvalidDigit)
            } else if v * 10 + digit_value(d.last()) > u64::MAX {
                Err(IntErrorKind::PosOverflow)
            } else {
                Ok(v * 10 + digit_value(d.last()))
            },
        }
    }
}

/// The digits of a word: the word without a leading `+`.
pub open spec fn digits_part(t: Seq<char>) -> Seq<char> {
    if t.len() > 0 && t[0] == '+' {
        t.drop_first()
    } else {
        t
    }
}

/// The decimal `u64` that a word spells: an optional `+` followed by at
/// least one digit, with a value that fits in a `u64`.
pub open spec fn parse_u64_spec(t: Seq<char>) -> Result<u64, IntErrorKind> {
    if t.len() == 0 {
        Err(IntErrorKind::Empty)
    } else if t.len() == 1 && t[0] == '+' {
        Err(IntErrorKind::InvalidDigit)
    } else {
        match scan_digits(digits_part(t)) {
            Ok(v) => Ok(v as u64),
            Err(e) => Err(e),
        }
    }
}

/// The number that a word spells, 0 when it spells none.
pub open spec fn number(t: Seq<char>) -> u64 {
    match parse_u64_spec(t) {
        Ok(v) => v,
        Err(_) => 0,
    }
}

/// Once the digits read so far have failed, more characters do not change
/// the error.
proof fn lemma_scan_err_sticks(d: Seq<char>, k: int)
    requires
        0 <= k <= d.len(),
        scan_digits(d.take(k)) is Err,
    ensures
        scan_digits(d) == scan_digits(d.take(k)),
    decreases d.len() - k,
{
    if k < d.len() {
        assert(d.take(k + 1).drop_last() =~= d.take(k));
        lemma_scan_err_sticks(d, k + 1);
    } else {
        assert(d.take(k) =~= d);
    }
}

/// Reads `tok` as a decimal `u64`.
pub fn parse_u64(tok: &str) -> (r: Result<u64, IntErrorKind>)
    ensures
        r == parse_u64_spec(tok@),
{
    let n = tok.unicode_len();
    if n == 0 {
        return Err(IntErrorKind::Empty);
    }
    let first_plus = tok.get_char(0) == '+';
    if first_plus && n == 1 {
        return Err(IntErrorKind::InvalidDigit);
    }
    let mut result: u64 = 0;
    let mut pos: usize = 0;
    for c in it: tok.chars()
        invariant
            n == tok@.len(),
            n > 0,
            first_plus == (tok@[0] == '+'),
            !(first_plus && n == 1),
            pos == it.index(),
            it.seq() == tok@,
            pos <= n,
            scan_digits(digits_part(tok@.take(pos as int))) == Ok::<int, IntErrorKind>(result as int),
    {
        let ghost prev = digits_part(tok@.take(pos as int));
        proof {
            assert(tok@.take(pos + 1) =~= tok@.take(pos as int).push(c));
            if pos > 0 || !first_plus {
                assert(digits_part(tok@.take(pos + 1)) =~= prev.push(c));
                assert(digits_part(tok@.take(pos + 1)).drop_last() =~= prev);
            } else {
                assert(digits_part(tok@.take(pos + 1)) =~= prev);
            }
        }
        if pos == 0 && first_plus {
            pos += 1;
        } else {
            if !('0' <= c && c <= '9') {
                proof {
                    let d = digits_part(tok@);
                    let k = digits_part(tok@.take(pos + 1)).len() as int;
                    assert(d.take(k) =~= digits_part(tok@.take(pos + 1)));
                    lemma_scan_err_sticks(d, k);
                }
                return Err(IntErrorKind::InvalidDigit);
            }
            let dv: u64 = (c as u32 - '0' as u32) as u64;
            let next = match result.checked_mul(10) {
                Some(m) => m.checked_add(dv),
                None => None,
            };
            match next {
                Some(v) => {
                    result = v;
                },
                None => {
                    proof {
                        let d = digits_part(tok@);
                        let k = digits_part(tok@.take(pos + 1)).len() as int;
                        assert(d.take(k) =~= digits_part(tok@.take(pos + 1)));
                        lemma_scan_err_sticks(d, k);
                    }
                    return Err(IntErrorKind::PosOverflow);
                },
            }
            pos += 1;
        }
    }
    proof {
        assert(tok@.take(pos as int) =~= tok@);
    }
    Ok(result)
}

/// The text of the error for a word that is not a `u64`.
pub open spec fn int_error_text(k: IntErrorKind) -> Seq<char> {
    match k {
        IntErrorKind::Empty => "cannot parse integer from empty string"@,
        IntErrorKind::InvalidDigit => "invalid digit found in string"@,
        IntErrorKind::PosOverflow => "number too large to fit in target type"@,
    }
}

/// The text of the error for a word that is not a `u64`.
pub fn int_error_message(k: IntErrorKind) -> (m: String)
    ensures
        m@ == int_error_text(k),
{
    match k {
        IntErrorKind::Empty => String::from_str("cannot parse integer from empty string"),
        IntErrorKind::InvalidDigit => String::from_str("invalid digit found in string"),
        IntErrorKind::PosOverflow => String::from_str("number too large to fit in target type"),
    }
}

/// Errors of the workload parser.
#[derive(Debug, PartialEq)]
pub enum ParsingError {
    /// a line does not follow the format; the text says why
    ParsingError(String),
    /// the workload has ended
    EOWError,
    /// any other failure
    Unknown,
}

/// The mathematical form of a `ParsingError`.
pub enum ParsingErrorView {
    ParsingError(Seq<char>),
    EOWError,
    Unknown,
}

impl View for ParsingError {
    type V = ParsingErrorView;

    open spec fn view(&self) -> ParsingErrorView {
        match self {
            ParsingError::ParsingError(s) => ParsingErrorView::ParsingError(s@),
            ParsingError::EOWError => ParsingErrorView::EOWError,
            ParsingError::Unknown => ParsingErrorView::Unknown,
        }
    }
}

impl ParsingError {
    /// The text that the error displays.
    pub fn message(&self) -> (m: String)
        ensures
            m@ == match self@ {
                ParsingErrorView::ParsingError(s) => "parsing error "@ + s,
                ParsingErrorView::EOWError => "end of workload"@,
                ParsingErrorView::Unknown => "unknown error"@,
            },
    {
        match self {
            ParsingError::ParsingError(s) => {
                let mut m = String::from_str("parsing error ");
                m.append(s.as_str());
                m
            },
            ParsingError::EOWError => String::from_str("end of workload"),
            ParsingError::Unknown => String::from_str("unknown error"),
        }
    }
}

/// The name of an agent, as the four numbers a workload line gives for it:
/// organization, namespace, agent type and agent id.
#[derive(Debug, Clone, Copy, PartialEq, Eq, Structural, Default)]
pub struct AgentName {
    pub organization: u64,
    pub namespace: u64,
    pub agent_type: u64,
    pub agent_id: u64,
}

/// A parsed workload line.
#[derive(Debug)]
pub struct ParsedMessage {
    /// message type (SUB or PUB)
    pub msg_type: String,
    /// name used to send the publication
    pub name: AgentName,
    /// publication id to add in the payload
    pub id: u64,
    /// list of possible receivers for the publication
    pub receivers: Vec<u64>,
}

/// The mathematical form of a `ParsedMessage`.
pub struct ParsedView {
    pub msg_type: Seq<char>,
    pub name: AgentName,
    pub id: u64,
    pub receivers: Seq<u64>,
}

impl View for ParsedMessage {
    type V = ParsedView;

    open spec fn view(&self) -> ParsedView {
        ParsedView {
            msg_type: self.msg_type@,
            name: self.name,
            id: self.id,
            receivers: self.receivers@,
        }
    }
}

/// The mathematical form of a parse result.
pub open spec fn result_view(r: Result<ParsedMessage, ParsingError>) -> Result<ParsedView, ParsingErrorView> {
    match r {
        Ok(m) => Ok(m@),
        Err(e) => Err(e@),
    }
}

/// A parse error with the given text.
pub open spec fn fail(text: Seq<char>) -> Result<ParsedView, ParsingErrorView> {
    Err(ParsingErrorView::ParsingError(text))
}

/// The agent name spelled by the four words of `t` from `k` on.
pub open spec fn name_at(t: Seq<Seq<char>>, k: int) -> AgentName {
    AgentName {
        organization: number(t[k]),
        namespace: number(t[k + 1]),
        agent_type: number(t[k + 2]),
        agent_id: number(t[k + 3]),
    }
}

/// The four words of `t` from `k` on all spell numbers.
pub open spec fn name_words_valid(t: Seq<Seq<char>>, k: int) -> bool {
    &&& 0 <= k
    &&& k + 4 <= t.len()
    &&& parse_u64_spec(t[k]) is Ok
    &&& parse_u64_spec(t[k + 1]) is Ok
    &&& parse_u64_spec(t[k + 2]) is Ok
    &&& parse_u64_spec(t[k + 3]) is Ok
}

/// The words after `SUB` that the parser accepts without failing on its
/// assumption: once the subscriber id is read, an agent name follows.
pub open spec fn sub_words_ok(t: Seq<Seq<char>>) -> bool {
    t.len() >= 2 && parse_u64_spec(t[1]) is Ok ==> name_words_valid(t, 2)
}

/// The words after `PUB` that the parser accepts without failing on its
/// assumption: once the publication id is read, an agent name and a
/// receiver count word follow.
pub open spec fn pub_words_ok(t: Seq<Seq<char>>) -> bool {
    t.len() >= 1 && parse_u64_spec(t[0]) is Ok ==> name_words_valid(t, 1) && t.len() >= 6
}

/// What a subscription line yields, from the words after `SUB`: the first
/// word (the subscription id) is skipped, the second is the subscriber id,
/// the next four name the agent; further words are ignored.
pub open spec fn sub_outcome(t: Seq<Seq<char>>) -> Result<ParsedView, ParsingErrorView> {
    if t.len() < 2 {
        fail("missing subscriber id"@)
    } else {
        match parse_u64_spec(t[1]) {
            Err(k) => fail(int_error_text(k)),
            Ok(id) => Ok(ParsedView {
                msg_type: "SUB"@,
                name: name_at(t, 2),
                id,
                receivers: Seq::empty(),
            }),
        }
    }
}

/// The numbers spelled by the words of `t`, or the error of the first word
/// that spells none.
pub open spec fn numbers(t: Seq<Seq<char>>) -> Result<Seq<u64>, IntErrorKind>
    decreases t.len(),
{
    if t.len() == 0 {
        Ok(Seq::empty())
    } else {
        match numbers(t.drop_last()) {
            Err(k) => Err(k),
            Ok(v) => match parse_u64_spec(t.last()) {
                Err(k) => Err(k),
                Ok(x) => Ok(v.push(x)),
            },
        }
    }
}

/// What a publication line yields, from the words after `PUB`: the
/// publication id, four words naming the agent, the receiver count, and the
/// receiver ids, whose number must equal the count.
pub open spec fn pub_outcome(t: Seq<Seq<char>>) -> Result<ParsedView, ParsingErrorView> {
    if t.len() < 1 {
        fail("missing publication id"@)
    } else {
        match parse_u64_spec(t[0]) {
            Err(k) => fail(int_error_text(k)),
            Ok(id) => match parse_u64_spec(t[5]) {
                Err(k) => fail(int_error_text(k)),
                Ok(size) => match numbers(t.skip(6)) {
                    Err(k) => fail(int_error_text(k)),
                    Ok(receivers) => if size != receivers.len() {
                        fail("missing receiver ids"@)
                    } else {
                        Ok(ParsedView { msg_type: "PUB"@, name: name_at(t, 1), id, receivers })
                    },
                },
            },
        }
    }
}

/// The lines that the parser accepts without failing on its assumptions.
pub open spec fn line_ok(s: Seq<char>) -> bool {
    let w = words(s);
    &&& (w.len() > 0 && w[0] == "SUB"@ ==> sub_words_ok(w.drop_first()))
    &&& (w.len() > 0 && w[0] == "PUB"@ ==> pub_words_ok(w.drop_first()))
}

/// What a workload line yields: its first word selects the message type.
pub open spec fn line_outcome(s: Seq<char>) -> Result<ParsedView, ParsingErrorView> {
    let w = words(s);
    if w.len() == 0 {
        fail("missing type"@)
    } else if w[0] == "SUB"@ {
        sub_outcome(w.drop_first())
    } else if w[0] == "PUB"@ {
        pub_outcome(w.drop_first())
    } else {
        fail("unknown type: "@ + w[0])
    }
}

/// A line is read by its first word: a `SUB` line gives what `parse_sub`
/// gives on the words after it, a `PUB` line what `parse_pub` gives.
pub proof fn law_line_dispatch(s: Seq<char>)
    ensures
        words(s).len() > 0 && words(s)[0] == "SUB"@ ==> line_outcome(s) == sub_outcome(words(s).drop_first()),
        words(s).len() > 0 && words(s)[0] == "PUB"@ && words(s)[0] != "SUB"@
            ==> line_outcome(s) == pub_outcome(words(s).drop_first()),
{
}

/// When every word spells a number, `numbers` gives one number per word,
/// in order.
proof fn lemma_numbers_ok(t: Seq<Seq<char>>)
    requires
        numbers(t) is Ok,
    ensures
        numbers(t)->Ok_0.len() == t.len(),
        forall|i: int| 0 <= i < t.len() ==> parse_u64_spec(#[trigger] t[i]) == Ok::<u64, IntErrorKind>(numbers(t)->Ok_0[i]),
    decreases t.len(),
{
    if t.len() > 0 {
        lemma_numbers_ok(t.drop_last());
        let v = numbers(t.drop_last())->Ok_0;
        assert forall|i: int| 0 <= i < t.len() implies parse_u64_spec(#[trigger] t[i]) == Ok::<u64, IntErrorKind>(numbers(t)->Ok_0[i]) by {
            if i < t.len() - 1 {
                assert(t.drop_last()[i] == t[i]);
            }
        }
    }
}

/// A publication line is read as announced: the result has exactly as
/// many receivers as its count word gives, the receivers being the numbers
/// of the words that follow the count, in order; a count that differs from
/// the number of those words is refused.
pub proof fn law_pub_receivers_match_count(t: Seq<Seq<char>>)
    requires
        pub_words_ok(t),
    ensures
        pub_outcome(t) matches Ok(m) ==> {
            &&& m.msg_type == "PUB"@
            &&& m.id == number(t[0])
            &&& m.receivers.len() == number(t[5])
            &&& m.receivers.len() == t.len() - 6
            &&& forall|i: int| 0 <= i < m.receivers.len() ==> #[trigger] m.receivers[i] == number(t[6 + i])
        },
        t.len() >= 6 && parse_u64_spec(t[0]) is Ok && parse_u64_spec(t[5]) is Ok
            && numbers(t.skip(6)) is Ok && number(t[5]) != t.len() - 6
            ==> pub_outcome(t) == fail("missing receiver ids"@),
{
    if t.len() >= 6 && parse_u64_spec(t[0]) is Ok && parse_u64_spec(t[5]) is Ok && numbers(t.skip(6)) is Ok {
        lemma_numbers_ok(t.skip(6));
        assert forall|i: int| 0 <= i < t.len() - 6 implies #[trigger] numbers(t.skip(6))->Ok_0[i] == number(t[6 + i]) by {
            assert(t.skip(6)[i] == t[6 + i]);
        }
    }
}

/// A subscription line gives a `SUB` message with no receivers, whose id is
/// the second word after `SUB` and whose name is spelled by the next four.
pub proof fn law_sub_has_no_receivers(t: Seq<Seq<char>>)
    ensures
        sub_outcome(t) matches Ok(m) ==> {
            &&& m.msg_type == "SUB"@
            &&& m.receivers.len() == 0
            &&& m.id == number(t[1])
            &&& m.name == name_at(t, 2)
        },
{
}

/// Reads a word that is known to spell a number.
fn known_u64(tok: &String) -> (v: u64)
    requires
        parse_u64_spec(tok@) is Ok,
    ensures
        v == number(tok@),
{
    match parse_u64(tok.as_str()) {
        Ok(v) => v,
        Err(_) => 0,
    }
}

/// Parses the words of a subscription line that follow `SUB`.
pub fn parse_sub(tokens: &Vec<String>) -> (r: Result<ParsedMessage, ParsingError>)
    requires
        sub_words_ok(string_views(tokens@)),
    ensures
        result_view(r) == sub_outcome(string_views(tokens@)),
{
    let ghost t = string_views(tokens@);
    // the first word, the subscription id, is skipped
    if tokens.len() < 2 {
        return Err(ParsingError::ParsingError(String::from_str("missing subscriber id")));
    }
    let id = match parse_u64(tokens[1].as_str()) {
        Ok(x) => x,
        Err(e) => {
            return Err(ParsingError::ParsingError(int_error_message(e)));
        },
    };
    let organization = known_u64(&tokens[2]);
    let namespace = known_u64(&tokens[3]);
    let agent_type = known_u64(&tokens[4]);
    let agent_id = known_u64(&tokens[5]);
    let name = AgentName { organization, namespace, agent_type, agent_id };
    Ok(ParsedMessage {
        msg_type: String::from_str("SUB"),
        name,
        id,
        receivers: Vec::new(),
    })
}

/// Parses the words of a publication line that follow `PUB`.
pub fn parse_pub(tokens: &Vec<String>) -> (r: Result<ParsedMessage, ParsingError>)
    requires
        pub_words_ok(string_views(tokens@)),
    ensures
        result_view(r) == pub_outcome(string_views(tokens@)),
{
    let ghost t = string_views(tokens@);
    if tokens.len() < 1 {
        return Err(ParsingError::ParsingError(String::from_str("missing publication id")));
    }
    let id = match parse_u64(tokens[0].as_str()) {
        Ok(x) => x,
        Err(e) => {
            return Err(ParsingError::ParsingError(int_error_message(e)));
        },
    };
    let organization = known_u64(&tokens[1]);
    let namespace = known_u64(&tokens[2]);
    let agent_type = known_u64(&tokens[3]);
    let agent_id = known_u64(&tokens[4]);
    let name = AgentName { organization, namespace, agent_type, agent_id };
    let size = match parse_u64(tokens[5].as_str()) {
        Ok(x) => x,
        Err(e) => {
            return Err(ParsingError::ParsingError(int_error_message(e)));
        },
    };
    let mut receivers: Vec<u64> = Vec::new();
    let mut i: usize = 6;
    while i < tokens.len()
        invariant
            6 <= i <= tokens.len(),
            t == string_views(tokens@),
            t.len() >= 6,
            parse_u64_spec(t[0]) == Ok::<u64, IntErrorKind>(id),
            parse_u64_spec(t[5]) == Ok::<u64, IntErrorKind>(size),
            numbers(t.skip(6).take(i - 6)) == Ok::<Seq<u64>, IntErrorKind>(receivers@),
        decreases tokens.len() - i,
    {
        proof {
            assert(t.skip(6).take(i + 1 - 6).drop_last() =~= t.skip(6).take(i - 6));
            assert(t.skip(6).take(i + 1 - 6).last() == t[i as int]);
        }
        match parse_u64(tokens[i].as_str()) {
            Ok(x) => {
                receivers.push(x);
            },
            Err(e) => {
                proof {
                    assert(numbers(t.skip(6).take(i + 1 - 6)) == Err::<Seq<u64>, IntErrorKind>(e));
                    lemma_numbers_err_sticks(t.skip(6), i + 1 - 6);
                    assert(numbers(t.skip(6)) == Err::<Seq<u64>, IntErrorKind>(e));
                    assert(parse_u64_spec(t[0]) == Ok::<u64, IntErrorKind>(id));
                    assert(parse_u64_spec(t[5]) == Ok::<u64, IntErrorKind>(size));
                    assert(pub_outcome(t) == fail(int_error_text(e)));
                }
                return Err(ParsingError::ParsingError(int_error_message(e)));
            },
        }
        i += 1;
    }
    proof {
        assert(t.skip(6).take(i - 6) =~= t.skip(6));
    }
    if receivers.len() as u64 != size {
        return Err(ParsingError::ParsingError(String::from_str("missing receiver ids")));
    }
    Ok(ParsedMessage { msg_type: String::from_str("PUB"), name, id, receivers })
}

/// Parses one workload line.
pub fn parse_line(line: &str) -> (r: Result<ParsedMessage, ParsingError>)
    requires
        line_ok(line@),
    ensures
        result_view(r) == line_outcome(line@),
{
    let mut tokens = split_words(line);
    if tokens.len() == 0 {
        return Err(ParsingError::ParsingError(String::from_str("missing type")));
    }
    let rest = tokens.split_off(1);
    proof {
        assert(string_views(rest@) =~= words(line@).drop_first());
    }
    let msg_type = &tokens[0];
    if *msg_type == String::from_str("SUB") {
        parse_sub(&rest)
    } else if *msg_type == String::from_str("PUB") {
        parse_pub(&rest)
    } else {
        let mut m = String::from_str("unknown type: ");
        m.append(msg_type.as_str());
        Err(ParsingError::ParsingError(m))
    }
}

/// Once a word has failed, more words do not change the error.
proof fn lemma_numbers_err_sticks(t: Seq<Seq<char>>, k: int)
    requires
        0 <= k <= t.len(),
        numbers(t.take(k)) is Err,
    ensures
        numbers(t) == numbers(t.take(k)),
    decreases t.len() - k,
{
    if k < t.len() {
        assert(t.take(k + 1).drop_last() =~= t.take(k));
        lemma_numbers_err_sticks(t, k + 1);
    } else {
        assert(t.take(k) =~= t);
    }
}

} // verus!
