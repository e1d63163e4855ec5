//! The chat's console: a line typed by the user, cut into words at white space, names one
//! command and its arguments.
use vstd::prelude::*;

verus! {

/// The characters that have Unicode's White_Space property, the set that
/// `char::is_whitespace` and `str::split_whitespace` go by.
pub open spec fn is_space(c: char) -> bool {
    let v = c as u32;
    ||| 0x9 <= v <= 0xd
    ||| v == 0x20
    ||| v == 0x85
    ||| v == 0xa0
    ||| v == 0x1680
    ||| 0x2000 <= v <= 0x200a
    ||| v == 0x2028
    ||| v == 0x2029
    ||| v == 0x202f
    ||| v == 0x205f
    ||| v == 0x3000
}

/// The words of `s`: its maximal runs of characters that are not white space, in order.
pub open spec fn words_of(s: Seq<char>) -> Seq<Seq<char>>
    decreases s.len(),
{
    if s.len() == 0 {
        seq![]
    } else {
        let before = words_of(s.drop_last());
        let c = s.last();
        if is_space(c) {
            before
        } else if s.len() >= 2 && !is_space(s[s.len() - 2]) {
            before.drop_last().push(before.last().push(c))
        } else {
            before.push(seq![c])
        }
    }
}

/// Whether `c` has Unicode's White_Space property.
pub fn is_space_char(c: char) -> (r: bool)
    ensures
        r == is_space(c),
{
    let v = c as u32;
    (0x9 <= v && v <= 0xd) || v == 0x20 || v == 0x85 || v == 0xa0 || v == 0x1680 || (0x2000 <= v
        && v <= 0x200a) || v == 0x2028 || v == 0x2029 || v == 0x202f || v == 0x205f || v == 0x3000
}

/// No word of a text is empty or holds white space, and a text that ends in a character
/// other than white space has a word.
pub proof fn lemma_words_shape(s: Seq<char>)
    ensures
        forall|k: int| 0 <= k < words_of(s).len() ==> #[trigger] words_of(s)[k].len() > 0,
        forall|k: int, j: int|
            0 <= k < words_of(s).len() && 0 <= j < words_of(s)[k].len() ==> !is_space(
                #[trigger] words_of(s)[k][j],
            ),
        s.len() > 0 && !is_space(s.last()) ==> words_of(s).len() > 0,
    decreases s.len(),
{
    if s.len() > 0 {
        lemma_words_shape(s.drop_last());
        let before = words_of(s.drop_last());
        let c = s.last();
        if is_space(c) {
        } else if s.len() >= 2 && !is_space(s[s.len() - 2]) {
            assert(s.drop_last().last() == s[s.len() - 2]);
            let w = words_of(s);
            assert forall|k: int, j: int| 0 <= k < w.len() && 0 <= j < w[k].len() implies !is_space(
                #[trigger] w[k][j],
            ) by {
                if k < w.len() - 1 {
                    assert(w[k] == before[k]);
                } else {
                    if j < w[k].len() - 1 {
                        assert(w[k][j] == before.last()[j]);
                    }
                }
            }
        } else {
            let w = words_of(s);
            assert forall|k: int, j: int| 0 <= k < w.len() && 0 <= j < w[k].len() implies !is_space(
                #[trigger] w[k][j],
            ) by {
                if k < w.len() - 1 {
                    assert(w[k] == before[k]);
                }
            }
        }
    }
}

/// White space separates words: the words of two texts joined by a white-space character are
/// the words of the first followed by those of the second.
pub proof fn lemma_words_split_at_space(a: Seq<char>, c: char, b: Seq<char>)
    requires
        is_space(c),
    ensures
        words_of(a + seq![c] + b) == words_of(a) + words_of(b),
    decreases b.len(),
{
    let s = a + seq![c] + b;
    if b.len() == 0 {
        assert(s.drop_last() =~= a);
        assert(words_of(b) =~= Seq::<Seq<char>>::empty());
        assert(words_of(a) + words_of(b) =~= words_of(a));
    } else {
        let b0 = b.drop_last();
        let x = b.last();
        lemma_words_split_at_space(a, c, b0);
        let s0 = a + seq![c] + b0;
        assert(s.drop_last() =~= s0);
        assert(s.last() == x);
        let wa = words_of(a);
        let wb0 = words_of(b0);
        assert(words_of(s0) == wa + wb0);
        if is_space(x) {
            assert(words_of(b) == wb0);
        } else {
            assert(s[s.len() - 2] == s0.last());
            if b0.len() > 0 {
                assert(s0.last() == b0.last());
                assert(b[b.len() - 2] == b0.last());
            } else {
                assert(s0.last() == c);
            }
            if b0.len() > 0 && !is_space(b0.last()) {
                lemma_words_shape(b0);
                assert(words_of(b) == wb0.drop_last().push(wb0.last().push(x)));
                assert((wa + wb0).drop_last() =~= wa + wb0.drop_last());
                assert((wa + wb0).last() == wb0.last());
                assert(words_of(s) =~= wa + words_of(b));
            } else {
                assert(words_of(b) == wb0.push(seq![x]));
                assert(words_of(s) =~= wa + words_of(b));
            }
        }
    }
}

/// White space before or after a line changes none of its words, and so not what the line
/// asks for.
pub proof fn lemma_surrounding_space_ignored(line: Seq<char>, c: char)
    requires
        is_space(c),
    ensures
        words_of(seq![c] + line) == words_of(line),
        words_of(line.push(c)) == words_of(line),
{
    lemma_words_split_at_space(Seq::<char>::empty(), c, line);
    assert(Seq::<char>::empty() + seq![c] + line =~= seq![c] + line);
    assert(words_of(Seq::<char>::empty()) + words_of(line) =~= words_of(line));
    assert(line.push(c).drop_last() =~= line);
}

/// The words of `line`, in order, each as a `String`.
pub fn split_words(line: &str) -> (words: Vec<String>)
    ensures
        words.len() == words_of(line@).len(),
        forall|k: int| 0 <= k < words.len() ==> #[trigger] words[k]@ == words_of(line@)[k],
{
    let n = line.unicode_len();
    let ghost s = line@;
    let mut words: Vec<String> = Vec::new();
    let mut start: usize = 0;
    let mut in_word = false;
    let mut i: usize = 0;
    assert(s.take(0) =~= Seq::<char>::empty());
    while i < n
        invariant
            n == s.len(),
            s == line@,
            i <= n,
            start <= i,
            in_word ==> start < i && !is_space(s[i - 1]),
            !in_word ==> i == 0 || is_space(s[i - 1]),
            in_word ==> words.len() + 1 == words_of(s.take(i as int)).len(),
            !in_word ==> words.len() == words_of(s.take(i as int)).len(),
            forall|k: int| 0 <= k < words.len() ==> #[trigger] words[k]@ == words_of(
                s.take(i as int),
            )[k],
            in_word ==> words_of(s.take(i as int)).last() == s.subrange(start as int, i as int),
        decreases n - i,
    {
        let c = line.get_char(i);
        let ghost before = words_of(s.take(i as int));
        let ghost after = words_of(s.take(i + 1));
        assert(s.take(i + 1).drop_last() =~= s.take(i as int));
        assert(s.take(i + 1).last() == c);
        if is_space_char(c) {
            if in_word {
                let w = String::from_str(line.substring_char(start, i));
                words.push(w);
                assert(words@.last()@ == before.last());
            }
            in_word = false;
            assert(after == before);
        } else {
            if in_word {
                assert(s.take(i + 1)[i - 1] == s[i - 1]);
                assert(after == before.drop_last().push(before.last().push(c)));
                assert(s.subrange(start as int, i + 1) =~= s.subrange(start as int, i as int).push(
                    c,
                ));
            } else {
                if i >= 1 {
                    assert(s.take(i + 1)[i - 1] == s[i - 1]);
                }
                assert(after == before.push(seq![c]));
                assert(s.subrange(i as int, i + 1) =~= seq![c]);
                start = i;
                in_word = true;
            }
        }
        i = i + 1;
    }
    assert(s.take(n as int) =~= s);
    if in_word {
        let w = String::from_str(line.substring_char(start, n));
        words.push(w);
    }
    words
}

/// What a line typed at the chat's console asks for.
pub enum Command {
    /// `send PEER_ID MESSAGE`: a message for one peer.
    Send { peer: String, message: String },
    /// `broadcast MESSAGE`: a message for every peer.
    Broadcast { message: String },
    /// `connect MULTIADDR`: dial another node.
    Connect { address: String },
    /// `exit`: leave the chat.
    Exit,
    /// `help`, an empty line or a word the console does not know: show the commands.
    Help,
    /// One of `send`, `broadcast`, `connect` without the words it needs: nothing happens.
    MissingArguments,
}

pub open spec fn send_word() -> Seq<char> {
    seq!['s', 'e', 'n', 'd']
}

pub open spec fn broadcast_word() -> Seq<char> {
    seq!['b', 'r', 'o', 'a', 'd', 'c', 'a', 's', 't']
}

pub open spec fn connect_word() -> Seq<char> {
    seq!['c', 'o', 'n', 'n', 'e', 'c', 't']
}

pub open spec fn exit_word() -> Seq<char> {
    seq!['e', 'x', 'i', 't']
}

/// The command that a line with the words `w` names: the first word picks it, the next ones
/// are its arguments, and words after those are ignored.
pub open spec fn command_for(w: Seq<Seq<char>>, c: Command) -> bool {
    if w.len() == 0 {
        c is Help
    } else if w[0] == send_word() {
        if w.len() >= 3 {
            c matches Command::Send { peer, message } && peer@ == w[1] && message@ == w[2]
        } else {
            c is MissingArguments
        }
    } else if w[0] == broadcast_word() {
        if w.len() >= 2 {
            c matches Command::Broadcast { message } && message@ == w[1]
        } else {
            c is MissingArguments
        }
    } else if w[0] == connect_word() {
        if w.len() >= 2 {
            c matches Command::Connect { address } && address@ == w[1]
        } else {
            c is MissingArguments
        }
    } else if w[0] == exit_word() {
        c is Exit
    } else {
        c is Help
    }
}

/// How many words after the first a command needs: two for `send` (the peer and the message),
/// one for `broadcast` (the message) and `connect` (the address), none for the others.
pub open spec fn arguments_needed(first: Seq<char>) -> nat {
    if first == send_word() {
        2
    } else if first == broadcast_word() || first == connect_word() {
        1
    } else {
        0
    }
}

/// Words after those a command needs change nothing: a line that goes on after its command's
/// arguments names the same command, with the same arguments, as the line cut there.
pub proof fn lemma_command_ignores_extra_words(w: Seq<Seq<char>>, extra: Seq<Seq<char>>, c: Command)
    requires
        w.len() >= 1 + arguments_needed(w[0]),
    ensures
        command_for(w + extra, c) == command_for(w, c),
{
    let v = w + extra;
    assert(v[0] == w[0]);
    if w.len() >= 2 {
        assert(v[1] == w[1]);
    }
    if w.len() >= 3 {
        assert(v[2] == w[2]);
    }
}

/// Unicode's white space lies at or below U+3000, the ideographic space: no character above
/// it (such as the fullwidth comma U+FF0C) separates words.
pub proof fn lemma_white_space_bound(c: char)
    ensures
        is_space(c) ==> (c as u32) <= 0x3000,
{
}

/// Among ASCII characters, white space is the space and the controls from tab to carriage
/// return; no letter, digit or punctuation mark separates words.
pub proof fn lemma_ascii_white_space(c: char)
    requires
        (c as u32) < 0x80,
    ensures
        is_space(c) <==> (c == ' ' || ('\t' <= c && c <= '\r')),
{
}

/// The twenty-five characters with Unicode's White_Space property.
pub open spec fn white_space_chars() -> Set<char> {
    set![
        '\u{9}', '\u{a}', '\u{b}', '\u{c}', '\u{d}', '\u{20}', '\u{85}', '\u{a0}', '\u{1680}',
        '\u{2000}', '\u{2001}', '\u{2002}', '\u{2003}', '\u{2004}', '\u{2005}', '\u{2006}',
        '\u{2007}', '\u{2008}', '\u{2009}', '\u{200a}', '\u{2028}', '\u{2029}', '\u{202f}',
        '\u{205f}', '\u{3000}'
    ]
}

/// A character is white space exactly when it is one of the twenty-five of Unicode's list.
proof fn lemma_space_char_listed(c: char)
    ensures
        white_space_chars().contains(c) == is_space(c),
{
}

/// White space is exactly twenty-five characters: the next line control, the no-break space,
/// the Ogham space mark, the spaces of the General Punctuation block (U+2000 to U+200A,
/// U+202F, U+205F), the line and paragraph separators and the ideographic space, beside the
/// six of ASCII.
pub proof fn lemma_white_space_count()
    ensures
        Set::new(|c: char| is_space(c)) == white_space_chars(),
        white_space_chars().finite(),
        white_space_chars().len() == 25,
{
    assert forall|c: char| #[trigger] white_space_chars().contains(c) == is_space(c) by {
        lemma_space_char_listed(c);
    }
    assert(Set::new(|c: char| is_space(c)) =~= white_space_chars());
}

/// Whether the word `w` is the keyword `k`.
fn is_keyword(w: &String, k: &[char]) -> (r: bool)
    ensures
        r == (w@ == k@),
{
    let ws = w.as_str();
    let n = ws.unicode_len();
    if n != k.len() {
        return false;
    }
    let mut i: usize = 0;
    while i < n
        invariant
            n == w@.len(),
            n == k@.len(),
            ws@ == w@,
            i <= n,
            forall|j: int| 0 <= j < i ==> w@[j] == k@[j],
        decreases n - i,
    {
        if ws.get_char(i) != k[i] {
            return false;
        }
        i = i + 1;
    }
    assert(w@ =~= k@);
    true
}

/// Reads a line typed at the console.
pub fn parse_command(line: &str) -> (c: Command)
    ensures
        command_for(words_of(line@), c),
{
    let mut words = split_words(line);
    let ghost w = words_of(line@);
    if words.len() == 0 {
        return Command::Help;
    }
    let send: [char; 4] = ['s', 'e', 'n', 'd'];
    let broadcast: [char; 9] = ['b', 'r', 'o', 'a', 'd', 'c', 'a', 's', 't'];
    let connect: [char; 7] = ['c', 'o', 'n', 'n', 'e', 'c', 't'];
    let exit: [char; 4] = ['e', 'x', 'i', 't'];
    assert(send@ =~= send_word());
    assert(broadcast@ =~= broadcast_word());
    assert(connect@ =~= connect_word());
    assert(exit@ =~= exit_word());
    assert(words[0]@ == w[0]);
    if is_keyword(&words[0], &send) {
        if words.len() >= 3 {
            assert(words[1]@ == w[1]);
            assert(words[2]@ == w[2]);
            let message = words.remove(2);
            let peer = words.remove(1);
            Command::Send { peer, message }
        } else {
            Command::MissingArguments
        }
    } else if is_keyword(&words[0], &broadcast) {
        if words.len() >= 2 {
            assert(words[1]@ == w[1]);
            let message = words.remove(1);
            Command::Broadcast { message }
        } else {
            Command::MissingArguments
        }
    } else if is_keyword(&words[0], &connect) {
        if words.len() >= 2 {
            assert(words[1]@ == w[1]);
            let address = words.remove(1);
            Command::Connect { address }
        } else {
            Command::MissingArguments
        }
    } else if is_keyword(&words[0], &exit) {
        Command::Exit
    } else {
        Command::Help
    }
}

} // verus!
