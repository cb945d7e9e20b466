//! Text normalisation used by the use cases: trimming, whitespace splitting, and the
//! token comparison behind transcript echo detection.

use vstd::prelude::*;

verus! {

/// Whether `c` has the Unicode `White_Space` property, the definition that `str::trim` and
/// `str::split_whitespace` use.
pub open spec fn spec_is_white_space(c: char) -> bool {
    let v = c as u32;
    ||| 0x09 <= v <= 0x0D
    ||| v == 0x20
    ||| v == 0x85
    ||| v == 0xA0
    ||| v == 0x1680
    ||| 0x2000 <= v <= 0x200A
    ||| v == 0x2028
    ||| v == 0x2029
    ||| v == 0x202F
    ||| v == 0x205F
    ||| v == 0x3000
}

/// Whether `c` is ASCII punctuation: ``!"#$%&'()*+,-./:;<=>?@[\]^_`{|}~``.
pub open spec fn spec_is_ascii_punctuation(c: char) -> bool {
    let v = c as u32;
    ||| 0x21 <= v <= 0x2F
    ||| 0x3A <= v <= 0x40
    ||| 0x5B <= v <= 0x60
    ||| 0x7B <= v <= 0x7E
}

/// The character that `char::to_ascii_lowercase` gives for `c`.
pub open spec fn spec_ascii_lower(c: char) -> char {
    if 'A' <= c && c <= 'Z' {
        ((c as u32) + 32) as char
    } else {
        c
    }
}

/// `s` with every ASCII capital letter lowered, as `str::to_ascii_lowercase` gives it.
pub open spec fn ascii_lowercase(s: Seq<char>) -> Seq<char> {
    s.map_values(|c: char| spec_ascii_lower(c))
}

/// The predicate a trim strips by: punctuation when `punct`, whitespace otherwise.
pub open spec fn strippable(c: char, punct: bool) -> bool {
    if punct {
        spec_is_ascii_punctuation(c)
    } else {
        spec_is_white_space(c)
    }
}

/// `s` without its leading strippable characters.
pub open spec fn strip_start(s: Seq<char>, punct: bool) -> Seq<char>
    decreases s.len(),
{
    if s.len() > 0 && strippable(s[0], punct) {
        strip_start(s.drop_first(), punct)
    } else {
        s
    }
}

/// `s` without its trailing strippable characters.
pub open spec fn strip_end(s: Seq<char>, punct: bool) -> Seq<char>
    decreases s.len(),
{
    if s.len() > 0 && strippable(s.last(), punct) {
        strip_end(s.drop_last(), punct)
    } else {
        s
    }
}

/// What `str::trim` leaves of `s`.
pub open spec fn trimmed(s: Seq<char>) -> Seq<char> {
    strip_end(strip_start(s, false), false)
}

/// What `str::split_whitespace` yields for `s`: its maximal runs of non-whitespace
/// characters, in order. Defined by reading `s` one character at a time from the left.
pub open spec fn words(s: Seq<char>) -> Seq<Seq<char>>
    decreases s.len(),
{
    if s.len() == 0 {
        seq![]
    } else {
        let prev = words(s.drop_last());
        let c = s.last();
        if spec_is_white_space(c) {
            prev
        } else if s.len() >= 2 && !spec_is_white_space(s[s.len() - 2]) {
            prev.update(prev.len() - 1, prev.last().push(c))
        } else {
            prev.push(seq![c])
        }
    }
}

/// A word stripped of surrounding ASCII punctuation and lowered.
pub open spec fn token_of(word: Seq<char>) -> Seq<char> {
    ascii_lowercase(strip_end(strip_start(word, true), true))
}

/// The tokens of a sequence of words: each word as `token_of` gives it, dropping those
/// that come out empty.
pub open spec fn tokens_of_words(ws: Seq<Seq<char>>) -> Seq<Seq<char>>
    decreases ws.len(),
{
    if ws.len() == 0 {
        seq![]
    } else {
        let prev = tokens_of_words(ws.drop_last());
        let t = token_of(ws.last());
        if t.len() == 0 {
            prev
        } else {
            prev.push(t)
        }
    }
}

/// The normalised tokens of a text: whitespace-separated words, stripped of surrounding
/// ASCII punctuation, lowered, empty ones dropped.
pub open spec fn text_tokens(s: Seq<char>) -> Seq<Seq<char>> {
    tokens_of_words(words(s))
}

/// The views of a sequence of character vectors.
pub open spec fn char_vec_views(v: Seq<Vec<char>>) -> Seq<Seq<char>> {
    v.map_values(|w: Vec<char>| w@)
}

/// The views of a sequence of strings.
pub open spec fn string_views(v: Seq<String>) -> Seq<Seq<char>> {
    v.map_values(|w: String| w@)
}

pub fn is_white_space(c: char) -> (r: bool)
    ensures
        r == spec_is_white_space(c),
{
    let v = c as u32;
    (0x09 <= v && v <= 0x0D) || v == 0x20 || v == 0x85 || v == 0xA0 || v == 0x1680 || (0x2000
        <= v && v <= 0x200A) || v == 0x2028 || v == 0x2029 || v == 0x202F || v == 0x205F || v
        == 0x3000
}

pub fn is_ascii_punctuation(c: char) -> (r: bool)
    ensures
        r == spec_is_ascii_punctuation(c),
{
    let v = c as u32;
    (0x21 <= v && v <= 0x2F) || (0x3A <= v && v <= 0x40) || (0x5B <= v && v <= 0x60) || (0x7B
        <= v && v <= 0x7E)
}

pub fn ascii_lower(c: char) -> (r: char)
    ensures
        r == spec_ascii_lower(c),
{
    if 'A' <= c && c <= 'Z' {
        let v: u32 = c as u32;
        ((v + 32) as u8) as char
    } else {
        c
    }
}

fn is_strippable(c: char, punct: bool) -> (r: bool)
    ensures
        r == strippable(c, punct),
{
    if punct {
        is_ascii_punctuation(c)
    } else {
        is_white_space(c)
    }
}

/// The characters of a string, in order.
pub fn chars_of(s: &str) -> (v: Vec<char>)
    ensures
        v@ == s@,
{
    let mut v: Vec<char> = Vec::new();
    for c in it: s.chars()
        invariant
            v@ == it.seq().take(it.index() as int),
    {
        v.push(c);
    }
    v
}

/// Appends one character to a string (`String::push`).
#[verifier::external_body]
fn push_char(s: &mut String, c: char)
    ensures
        final(s)@ == old(s)@.push(c),
{
    s.push(c);
}

/// The string made of `v[lo..hi]`.
pub fn string_of(v: &Vec<char>, lo: usize, hi: usize) -> (s: String)
    requires
        lo <= hi <= v@.len(),
    ensures
        s@ == v@.subrange(lo as int, hi as int),
{
    let mut s = String::new();
    let mut i = lo;
    while i < hi
        invariant
            lo <= i <= hi <= v@.len(),
            s@ == v@.subrange(lo as int, i as int),
        decreases hi - i,
    {
        push_char(&mut s, v[i]);
        assert(v@.subrange(lo as int, i + 1) =~= v@.subrange(lo as int, i as int).push(v@[i as int]));
        i = i + 1;
    }
    s
}

/// The bounds, within `v[lo..hi]`, of what is left after stripping strippable characters
/// from both ends.
pub fn strip_range(v: &Vec<char>, lo: usize, hi: usize, punct: bool) -> (r: (usize, usize))
    requires
        lo <= hi <= v@.len(),
    ensures
        lo <= r.0 <= r.1 <= hi,
        v@.subrange(r.0 as int, r.1 as int) == strip_end(
            strip_start(v@.subrange(lo as int, hi as int), punct),
            punct,
        ),
{
    let mut i = lo;
    while i < hi && is_strippable(v[i], punct)
        invariant
            lo <= i <= hi <= v@.len(),
            strip_start(v@.subrange(lo as int, hi as int), punct) == strip_start(
                v@.subrange(i as int, hi as int),
                punct,
            ),
        decreases hi - i,
    {
        assert(v@.subrange(i as int, hi as int).drop_first() =~= v@.subrange(i + 1, hi as int));
        i = i + 1;
    }
    assert(strip_start(v@.subrange(i as int, hi as int), punct) == v@.subrange(i as int, hi as int));
    let mut j = hi;
    while j > i && is_strippable(v[j - 1], punct)
        invariant
            lo <= i <= j <= hi <= v@.len(),
            strip_end(v@.subrange(i as int, hi as int), punct) == strip_end(
                v@.subrange(i as int, j as int),
                punct,
            ),
        decreases j - i,
    {
        assert(v@.subrange(i as int, j as int).drop_last() =~= v@.subrange(i as int, j - 1));
        j = j - 1;
    }
    assert(strip_end(v@.subrange(i as int, j as int), punct) == v@.subrange(i as int, j as int));
    (i, j)
}

/// Why a required text field was refused: it is empty once trimmed.
#[derive(Clone, Debug, PartialEq, Eq)]
pub struct BlankTextError {
    /// What the field is called, for the message.
    pub label: String,
}

impl BlankTextError {
    /// `"<label> must be a non-empty trimmed string"`.
    pub fn message(&self) -> (m: String)
        ensures
            m@ == self.label@ + " must be a non-empty trimmed string"@,
    {
        let s = self.label.clone();
        s.concat(" must be a non-empty trimmed string")
    }
}

/// The trimmed text, or an error naming `label` when nothing is left after trimming.
pub fn normalize_required(raw: &str, label: &str) -> (r: Result<String, BlankTextError>)
    ensures
        match r {
            Ok(s) => trimmed(raw@).len() > 0 && s@ == trimmed(raw@),
            Err(e) => trimmed(raw@).len() == 0 && e.label@ == label@,
        },
{
    let v = chars_of(raw);
    assert(v@.subrange(0, v@.len() as int) =~= v@);
    let (lo, hi) = strip_range(&v, 0, v.len(), false);
    if lo == hi {
        Err(BlankTextError { label: label.to_owned() })
    } else {
        Ok(string_of(&v, lo, hi))
    }
}


/// A non-empty text whose last character is not whitespace ends inside a word.
pub proof fn lemma_words_nonempty(s: Seq<char>)
    requires
        s.len() > 0,
        !spec_is_white_space(s.last()),
    ensures
        words(s).len() > 0,
    decreases s.len(),
{
    if s.len() >= 2 && !spec_is_white_space(s[s.len() - 2]) {
        lemma_words_nonempty(s.drop_last());
    }
}

/// The whitespace-separated words of `v`, as `str::split_whitespace` yields them.
pub fn split_words(v: &Vec<char>) -> (r: Vec<Vec<char>>)
    ensures
        char_vec_views(r@) == words(v@),
{
    let mut acc: Vec<Vec<char>> = Vec::new();
    let mut i: usize = 0;
    assert(v@.take(0) =~= Seq::<char>::empty());
    assert(char_vec_views(acc@) =~= words(v@.take(0)));
    while i < v.len()
        invariant
            i <= v@.len(),
            char_vec_views(acc@) == words(v@.take(i as int)),
        decreases v@.len() - i,
    {
        let c = v[i];
        let ghost prefix = v@.take(i as int);
        let ghost next = v@.take(i + 1);
        assert(next.drop_last() =~= prefix);
        assert(next.last() == c);
        if is_white_space(c) {
        } else if i >= 1 && !is_white_space(v[i - 1]) {
            proof {
                assert(next[next.len() - 2] == v@[i - 1]);
                assert(prefix.last() == v@[i - 1]);
                lemma_words_nonempty(prefix);
            }
            let mut last = acc.pop().unwrap();
            last.push(c);
            acc.push(last);
            assert(char_vec_views(acc@) =~= words(prefix).update(
                words(prefix).len() - 1,
                words(prefix).last().push(c),
            ));
        } else {
            let mut w: Vec<char> = Vec::new();
            w.push(c);
            acc.push(w);
            assert(char_vec_views(acc@) =~= words(prefix).push(seq![c]));
        }
        i = i + 1;
    }
    assert(v@.take(v@.len() as int) =~= v@);
    acc
}

/// The normalised token of one word.
fn token_from_word(w: &Vec<char>) -> (t: Vec<char>)
    ensures
        t@ == token_of(w@),
{
    assert(w@.subrange(0, w@.len() as int) =~= w@);
    let (lo, hi) = strip_range(w, 0, w.len(), true);
    let mut t: Vec<char> = Vec::new();
    let mut k = lo;
    while k < hi
        invariant
            lo <= k <= hi <= w@.len(),
            t@ =~= ascii_lowercase(w@.subrange(lo as int, k as int)),
        decreases hi - k,
    {
        t.push(ascii_lower(w[k]));
        k = k + 1;
    }
    t
}

/// The normalised tokens of `v`, as character vectors.
pub fn token_chars(v: &Vec<char>) -> (r: Vec<Vec<char>>)
    ensures
        char_vec_views(r@) == text_tokens(v@),
{
    let ws = split_words(v);
    let mut acc: Vec<Vec<char>> = Vec::new();
    let mut i: usize = 0;
    assert(char_vec_views(ws@).take(0) =~= Seq::<Seq<char>>::empty());
    assert(char_vec_views(acc@) =~= tokens_of_words(char_vec_views(ws@).take(0)));
    while i < ws.len()
        invariant
            i <= ws@.len(),
            char_vec_views(ws@) == words(v@),
            char_vec_views(acc@) == tokens_of_words(char_vec_views(ws@).take(i as int)),
        decreases ws@.len() - i,
    {
        let t = token_from_word(&ws[i]);
        let ghost prefix = char_vec_views(ws@).take(i as int);
        let ghost next = char_vec_views(ws@).take(i + 1);
        assert(next.drop_last() =~= prefix);
        assert(next.last() == ws@[i as int]@);
        if t.len() == 0 {
        } else {
            acc.push(t);
            assert(char_vec_views(acc@) =~= tokens_of_words(prefix).push(token_of(ws@[i as int]@)));
        }
        i = i + 1;
    }
    assert(char_vec_views(ws@).take(ws@.len() as int) =~= char_vec_views(ws@));
    acc
}

/// The normalised tokens of `text`: its whitespace-separated words, stripped of
/// surrounding ASCII punctuation, lowered, empty ones dropped.
pub fn normalized_tokens(text: &str) -> (r: Vec<String>)
    ensures
        string_views(r@) == text_tokens(text@),
{
    let v = chars_of(text);
    let ts = token_chars(&v);
    let mut out: Vec<String> = Vec::new();
    let mut i: usize = 0;
    while i < ts.len()
        invariant
            i <= ts@.len(),
            string_views(out@) =~= char_vec_views(ts@).take(i as int),
        decreases ts@.len() - i,
    {
        let t = &ts[i];
        assert(t@.subrange(0, t@.len() as int) =~= t@);
        let ghost before = out@;
        out.push(string_of(t, 0, t.len()));
        assert(string_views(out@) =~= string_views(before).push(t@));
        assert(char_vec_views(ts@).take(i + 1) =~= char_vec_views(ts@).take(i as int).push(t@));
        i = i + 1;
    }
    assert(char_vec_views(ts@).take(ts@.len() as int) =~= char_vec_views(ts@));
    out
}


/// Tokens joined with single spaces, as `[String]::join(" ")` gives them.
pub open spec fn joined(ts: Seq<Seq<char>>) -> Seq<char>
    decreases ts.len(),
{
    if ts.len() == 0 {
        seq![]
    } else if ts.len() == 1 {
        ts[0]
    } else {
        joined(ts.drop_last()) + seq![' '] + ts.last()
    }
}

/// How many of the tokens `t`, counted with repetition, occur somewhere in `a`.
pub open spec fn overlap(t: Seq<Seq<char>>, a: Seq<Seq<char>>) -> nat
    decreases t.len(),
{
    if t.len() == 0 {
        0
    } else {
        overlap(t.drop_last(), a) + if a.contains(t.last()) {
            1nat
        } else {
            0nat
        }
    }
}

/// Whether transcript tokens `t` repeat the agent tokens `a`: `a` is not empty, and the
/// two read the same once joined, or both have at least four tokens and at least four
/// fifths of the shorter length of transcript tokens occur among the agent's.
pub open spec fn echoes(t: Seq<Seq<char>>, a: Seq<Seq<char>>) -> bool {
    &&& a.len() > 0
    &&& {
        ||| joined(t) == joined(a)
        ||| (t.len() >= 4 && a.len() >= 4 && overlap(t, a) * 5 >= (if t.len() <= a.len() {
            t.len()
        } else {
            a.len()
        }) * 4)
    }
}

/// Whether a transcript is an echo of one of the recent agent utterances: it has some
/// text once normalised, and it echoes one of them.
pub open spec fn is_recent_echo(transcript: Seq<char>, recent: Seq<Seq<char>>) -> bool {
    &&& joined(text_tokens(transcript)).len() > 0
    &&& exists|i: int| 0 <= i < recent.len() && echoes(text_tokens(transcript), text_tokens(#[trigger] recent[i]))
}

/// Whether two character vectors hold the same characters.
pub fn chars_equal(a: &Vec<char>, b: &Vec<char>) -> (r: bool)
    ensures
        r == (a@ == b@),
{
    if a.len() != b.len() {
        return false;
    }
    let mut i: usize = 0;
    while i < a.len()
        invariant
            i <= a@.len() == b@.len(),
            forall|k: int| 0 <= k < i ==> a@[k] == b@[k],
        decreases a@.len() - i,
    {
        if a[i] != b[i] {
            return false;
        }
        i = i + 1;
    }
    assert(a@ =~= b@);
    true
}

/// Whether `t` is one of the tokens `ts`.
pub fn contains_token(ts: &Vec<Vec<char>>, t: &Vec<char>) -> (r: bool)
    ensures
        r == char_vec_views(ts@).contains(t@),
{
    let mut i: usize = 0;
    while i < ts.len()
        invariant
            i <= ts@.len(),
            forall|k: int| 0 <= k < i ==> ts@[k]@ != t@,
        decreases ts@.len() - i,
    {
        if chars_equal(&ts[i], t) {
            assert(char_vec_views(ts@)[i as int] == t@);
            return true;
        }
        i = i + 1;
    }
    assert forall|k: int| 0 <= k < char_vec_views(ts@).len() implies char_vec_views(ts@)[k] != t@ by {
        assert(ts@[k]@ != t@);
    }
    false
}

/// The tokens joined with single spaces.
fn join_tokens(ts: &Vec<Vec<char>>) -> (r: Vec<char>)
    ensures
        r@ == joined(char_vec_views(ts@)),
{
    let mut out: Vec<char> = Vec::new();
    let mut i: usize = 0;
    assert(char_vec_views(ts@).take(0) =~= Seq::<Seq<char>>::empty());
    while i < ts.len()
        invariant
            i <= ts@.len(),
            out@ == joined(char_vec_views(ts@).take(i as int)),
        decreases ts@.len() - i,
    {
        let ghost prefix = char_vec_views(ts@).take(i as int);
        let ghost next = char_vec_views(ts@).take(i + 1);
        assert(next.drop_last() =~= prefix);
        if i > 0 {
            out.push(' ');
        }
        let w = &ts[i];
        let mut k: usize = 0;
        let ghost base = out@;
        while k < w.len()
            invariant
                k <= w@.len(),
                out@ =~= base + w@.take(k as int),
            decreases w@.len() - k,
        {
            out.push(w[k]);
            k = k + 1;
        }
        assert(w@.take(w@.len() as int) =~= w@);
        if i == 0 {
            assert(next =~= seq![w@]);
        }
        i = i + 1;
    }
    assert(char_vec_views(ts@).take(ts@.len() as int) =~= char_vec_views(ts@));
    out
}

/// How many of the tokens `t`, counted with repetition, occur in `a`.
fn count_overlap(t: &Vec<Vec<char>>, a: &Vec<Vec<char>>) -> (n: usize)
    ensures
        n as nat == overlap(char_vec_views(t@), char_vec_views(a@)),
{
    let mut n: usize = 0;
    let mut i: usize = 0;
    assert(char_vec_views(t@).take(0) =~= Seq::<Seq<char>>::empty());
    while i < t.len()
        invariant
            i <= t@.len(),
            n <= i,
            n as nat == overlap(char_vec_views(t@).take(i as int), char_vec_views(a@)),
        decreases t@.len() - i,
    {
        let ghost next = char_vec_views(t@).take(i + 1);
        assert(next.drop_last() =~= char_vec_views(t@).take(i as int));
        if contains_token(a, &t[i]) {
            n = n + 1;
        }
        i = i + 1;
    }
    assert(char_vec_views(t@).take(t@.len() as int) =~= char_vec_views(t@));
    n
}

/// Whether the transcript tokens `t` echo the agent tokens `a`.
fn tokens_echo(t: &Vec<Vec<char>>, joined_t: &Vec<char>, a: &Vec<Vec<char>>) -> (r: bool)
    requires
        joined_t@ == joined(char_vec_views(t@)),
    ensures
        r == echoes(char_vec_views(t@), char_vec_views(a@)),
{
    if a.len() == 0 {
        return false;
    }
    let joined_a = join_tokens(a);
    if chars_equal(joined_t, &joined_a) {
        return true;
    }
    if t.len() < 4 || a.len() < 4 {
        return false;
    }
    let overlap = count_overlap(t, a);
    let minimum = if t.len() <= a.len() {
        t.len()
    } else {
        a.len()
    };
    (overlap as u128) * 5 >= (minimum as u128) * 4
}

/// Whether `transcript_text` repeats one of `recent_agent_texts` — the last few things
/// agents said — so that a microphone picking up an agent's own voice is not taken for a
/// human speaking.
pub fn is_recent_agent_echo(transcript_text: &str, recent_agent_texts: &Vec<String>) -> (r: bool)
    ensures
        r == is_recent_echo(transcript_text@, string_views(recent_agent_texts@)),
{
    let transcript = chars_of(transcript_text);
    let transcript_tokens = token_chars(&transcript);
    let normalized_transcript = join_tokens(&transcript_tokens);
    if normalized_transcript.len() == 0 {
        return false;
    }
    let ghost recent = string_views(recent_agent_texts@);
    let ghost tt = text_tokens(transcript_text@);
    let mut i: usize = 0;
    while i < recent_agent_texts.len()
        invariant
            i <= recent_agent_texts@.len(),
            recent == string_views(recent_agent_texts@),
            tt == text_tokens(transcript_text@),
            char_vec_views(transcript_tokens@) == tt,
            normalized_transcript@ == joined(tt),
            normalized_transcript@.len() > 0,
            forall|k: int| 0 <= k < i ==> !echoes(tt, text_tokens(#[trigger] recent[k])),
        decreases recent_agent_texts@.len() - i,
    {
        let agent = chars_of(recent_agent_texts[i].as_str());
        let agent_tokens = token_chars(&agent);
        if tokens_echo(&transcript_tokens, &normalized_transcript, &agent_tokens) {
            assert(recent[i as int] == recent_agent_texts@[i as int]@);
            assert(echoes(tt, text_tokens(recent[i as int])));
            return true;
        }
        i = i + 1;
    }
    false
}


proof fn lemma_strip_start_shape(s: Seq<char>, punct: bool)
    ensures
        strip_start(s, punct).len() <= s.len(),
        strip_start(s, punct) == s.skip(s.len() - strip_start(s, punct).len()),
        strip_start(s, punct).len() == 0 || !strippable(strip_start(s, punct)[0], punct),
        forall|j: int| 0 <= j < s.len() - strip_start(s, punct).len() ==> strippable(#[trigger] s[j], punct),
    decreases s.len(),
{
    if s.len() > 0 && strippable(s[0], punct) {
        lemma_strip_start_shape(s.drop_first(), punct);
        let r = strip_start(s.drop_first(), punct);
        assert(s.drop_first().skip(s.drop_first().len() - r.len()) =~= s.skip(s.len() - r.len()));
        assert forall|j: int| 0 <= j < s.len() - r.len() implies strippable(#[trigger] s[j], punct) by {
            if j > 0 {
                assert(s[j] == s.drop_first()[j - 1]);
            }
        }
    } else {
        assert(s.skip(0) =~= s);
    }
}

proof fn lemma_strip_end_shape(s: Seq<char>, punct: bool)
    ensures
        strip_end(s, punct).len() <= s.len(),
        strip_end(s, punct) == s.take(strip_end(s, punct).len() as int),
        strip_end(s, punct).len() == 0 || !strippable(strip_end(s, punct).last(), punct),
        forall|j: int| strip_end(s, punct).len() <= j < s.len() ==> strippable(#[trigger] s[j], punct),
    decreases s.len(),
{
    if s.len() > 0 && strippable(s.last(), punct) {
        lemma_strip_end_shape(s.drop_last(), punct);
        let r = strip_end(s.drop_last(), punct);
        assert(s.drop_last().take(r.len() as int) =~= s.take(r.len() as int));
        assert forall|j: int| r.len() <= j < s.len() implies strippable(#[trigger] s[j], punct) by {
            if j < s.len() - 1 {
                assert(s[j] == s.drop_last()[j]);
            }
        }
    } else {
        assert(s.take(s.len() as int) =~= s);
    }
}

/// Law of `normalize_required`: what it keeps is trimmed — it neither starts nor ends with
/// whitespace — and it is a stretch of the raw text, everything before and after which is
/// whitespace.
pub proof fn lemma_trimmed_is_trimmed(s: Seq<char>)
    ensures
        trimmed(s).len() > 0 ==> !spec_is_white_space(trimmed(s)[0]) && !spec_is_white_space(
            trimmed(s).last(),
        ),
        exists|lo: int, hi: int| 0 <= lo <= hi <= s.len() && trimmed(s) == s.subrange(lo, hi),
        exists|lo: int, hi: int| {
            &&& 0 <= lo <= hi <= s.len()
            &&& trimmed(s) == s.subrange(lo, hi)
            &&& forall|j: int| 0 <= j < lo ==> spec_is_white_space(#[trigger] s[j])
            &&& forall|j: int| hi <= j < s.len() ==> spec_is_white_space(#[trigger] s[j])
        },
{
    let a = strip_start(s, false);
    lemma_strip_start_shape(s, false);
    lemma_strip_end_shape(a, false);
    let r = strip_end(a, false);
    if r.len() > 0 {
        assert(r[0] == a[0]);
    }
    let lo = s.len() - a.len();
    assert(r =~= s.subrange(lo, lo + r.len()));
    let hi = lo + r.len();
    assert forall|j: int| 0 <= j < lo implies spec_is_white_space(#[trigger] s[j]) by {
        assert(strippable(s[j], false));
    }
    assert forall|j: int| hi <= j < s.len() implies spec_is_white_space(#[trigger] s[j]) by {
        assert(s[j] == a[j - lo]);
        assert(strippable(a[j - lo], false));
    }
}

/// Law of `normalize_required`: normalising what it returned gives it back unchanged.
pub proof fn lemma_trimming_twice_changes_nothing(s: Seq<char>)
    ensures
        trimmed(trimmed(s)) == trimmed(s),
{
    let t = trimmed(s);
    lemma_trimmed_is_trimmed(s);
    if t.len() > 0 {
        assert(strip_start(t, false) == t);
        assert(strip_end(t, false) == t);
    }
}

/// Law of echo detection: a line that reads, once normalised, exactly like one of the
/// recent agent lines — and has any text at all — is an echo.
pub proof fn lemma_repeating_an_agent_is_an_echo(transcript: Seq<char>, recent: Seq<Seq<char>>, i: int)
    requires
        0 <= i < recent.len(),
        text_tokens(transcript) == text_tokens(recent[i]),
        text_tokens(transcript).len() > 0,
    ensures
        is_recent_echo(transcript, recent),
{
    let t = text_tokens(transcript);
    lemma_tokens_nonempty(words(transcript));
    assert(t[0].len() > 0);
    lemma_joined_len(t);
    assert(echoes(t, text_tokens(recent[i])));
}

proof fn lemma_tokens_nonempty(ws: Seq<Seq<char>>)
    ensures
        forall|k: int| 0 <= k < tokens_of_words(ws).len() ==> #[trigger] tokens_of_words(ws)[k].len() > 0,
    decreases ws.len(),
{
    if ws.len() > 0 {
        lemma_tokens_nonempty(ws.drop_last());
        let prev = tokens_of_words(ws.drop_last());
        let t = token_of(ws.last());
        if t.len() > 0 {
            assert forall|k: int| 0 <= k < prev.push(t).len() implies #[trigger] prev.push(t)[k].len() > 0 by {
                if k < prev.len() {
                    assert(prev.push(t)[k] == prev[k]);
                }
            }
        }
    }
}

proof fn lemma_joined_len(ts: Seq<Seq<char>>)
    ensures
        ts.len() > 0 ==> joined(ts).len() >= ts[0].len(),
    decreases ts.len(),
{
    if ts.len() > 1 {
        lemma_joined_len(ts.drop_last());
    }
}

/// One token of a word is either empty or bare: its first and last characters are not ASCII
/// punctuation, and it holds no ASCII capital.
proof fn lemma_token_of_is_bare(w: Seq<char>)
    ensures
        ({
            let t = token_of(w);
            t.len() > 0 ==> {
                &&& !(('!' <= t[0] && t[0] <= '/') || (':' <= t[0] && t[0] <= '@') || ('[' <= t[0] && t[0] <= '`')
                    || ('{' <= t[0] && t[0] <= '~'))
                &&& !(('!' <= t.last() && t.last() <= '/') || (':' <= t.last() && t.last() <= '@') || ('[' <= t.last()
                    && t.last() <= '`') || ('{' <= t.last() && t.last() <= '~'))
                &&& forall|j: int| 0 <= j < t.len() ==> !('A' <= #[trigger] t[j] && t[j] <= 'Z')
            }
        }),
{
    let u = strip_start(w, true);
    let v = strip_end(u, true);
    lemma_strip_start_shape(w, true);
    lemma_strip_end_shape(u, true);
    let t = token_of(w);
    assert(t == ascii_lowercase(v));
    if t.len() > 0 {
        assert(v.len() > 0);
        assert(v[0] == u[0]);
        assert(!spec_is_ascii_punctuation(v[0]));
        assert(!spec_is_ascii_punctuation(v.last()));
        assert(t[0] == spec_ascii_lower(v[0]));
        assert(t.last() == spec_ascii_lower(v.last()));
        assert forall|j: int| 0 <= j < t.len() implies !('A' <= #[trigger] t[j] && t[j] <= 'Z') by {
            assert(t[j] == spec_ascii_lower(v[j]));
        }
    }
}

/// Law of normalised tokens: every token of a text is non-empty, neither starts nor ends
/// with ASCII punctuation (the characters `!` to `/`, `:` to `@`, `[` to `` ` `` and `{` to
/// `~`), and holds no ASCII capital — a word is stripped of punctuation on both sides and
/// lowered.
pub proof fn lemma_tokens_are_bare(s: Seq<char>)
    ensures
        forall|k: int| 0 <= k < text_tokens(s).len() ==> {
            let t = #[trigger] text_tokens(s)[k];
            &&& t.len() > 0
            &&& !(('!' <= t[0] && t[0] <= '/') || (':' <= t[0] && t[0] <= '@') || ('[' <= t[0] && t[0] <= '`')
                || ('{' <= t[0] && t[0] <= '~'))
            &&& !(('!' <= t.last() && t.last() <= '/') || (':' <= t.last() && t.last() <= '@') || ('[' <= t.last()
                && t.last() <= '`') || ('{' <= t.last() && t.last() <= '~'))
            &&& forall|j: int| 0 <= j < t.len() ==> !('A' <= #[trigger] t[j] && t[j] <= 'Z')
        },
{
    lemma_tokens_of_words_are_bare(words(s));
}

proof fn lemma_tokens_of_words_are_bare(ws: Seq<Seq<char>>)
    ensures
        forall|k: int| 0 <= k < tokens_of_words(ws).len() ==> {
            let t = #[trigger] tokens_of_words(ws)[k];
            &&& t.len() > 0
            &&& !(('!' <= t[0] && t[0] <= '/') || (':' <= t[0] && t[0] <= '@') || ('[' <= t[0] && t[0] <= '`')
                || ('{' <= t[0] && t[0] <= '~'))
            &&& !(('!' <= t.last() && t.last() <= '/') || (':' <= t.last() && t.last() <= '@') || ('[' <= t.last()
                && t.last() <= '`') || ('{' <= t.last() && t.last() <= '~'))
            &&& forall|j: int| 0 <= j < t.len() ==> !('A' <= #[trigger] t[j] && t[j] <= 'Z')
        },
    decreases ws.len(),
{
    if ws.len() > 0 {
        lemma_tokens_of_words_are_bare(ws.drop_last());
        lemma_token_of_is_bare(ws.last());
        let prev = tokens_of_words(ws.drop_last());
        let t = token_of(ws.last());
        if t.len() > 0 {
            assert forall|k: int| 0 <= k < prev.push(t).len() implies (#[trigger] prev.push(t)[k]) == (if k < prev.len() {
                prev[k]
            } else {
                t
            }) by {}
        }
    }
}

/// Law of echo screening: a line of fewer than four tokens, or one screened against agent
/// lines of fewer than four tokens each, is an echo only when, once normalised, it reads
/// exactly like one of those lines — the overlap rule needs four tokens on both sides.
pub proof fn lemma_short_lines_echo_only_exactly(transcript: Seq<char>, recent: Seq<Seq<char>>)
    requires
        is_recent_echo(transcript, recent),
        text_tokens(transcript).len() < 4 || forall|i: int| 0 <= i < recent.len() ==> (#[trigger] text_tokens(recent[i])).len() < 4,
    ensures
        exists|i: int| 0 <= i < recent.len() && joined(text_tokens(transcript)) == joined(text_tokens(#[trigger] recent[i])),
{
    let i = choose|i: int| 0 <= i < recent.len() && echoes(text_tokens(transcript), text_tokens(#[trigger] recent[i]));
    assert(text_tokens(recent[i]).len() < 4 || text_tokens(transcript).len() < 4);
    assert(joined(text_tokens(transcript)) == joined(text_tokens(recent[i])));
}

} // verus!
