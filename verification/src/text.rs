//! Text building blocks: decimal rendering of integers, the mapping from an
//! HTTP scheme to its streaming counterpart, and the address below which a
//! server's endpoints lie.

use vstd::prelude::*;
use vstd::string::*;

verus! {

/// The character that stands for a single decimal digit.
pub open spec fn digit_char(d: nat) -> char {
    if d == 0 {
        '0'
    } else if d == 1 {
        '1'
    } else if d == 2 {
        '2'
    } else if d == 3 {
        '3'
    } else if d == 4 {
        '4'
    } else if d == 5 {
        '5'
    } else if d == 6 {
        '6'
    } else if d == 7 {
        '7'
    } else if d == 8 {
        '8'
    } else {
        '9'
    }
}

/// The decimal notation of `n`, most significant digit first, without leading zeros.
pub open spec fn decimal(n: nat) -> Seq<char>
    decreases n,
{
    if n < 10 {
        seq![digit_char(n)]
    } else {
        decimal(n / 10).push(digit_char(n % 10))
    }
}

/// One decimal digit as a string slice.
fn digit_str(d: u64) -> (r: &'static str)
    requires
        d < 10,
    ensures
        r@ == seq![digit_char(d as nat)],
{
    let r = if d == 0 {
        "0"
    } else if d == 1 {
        "1"
    } else if d == 2 {
        "2"
    } else if d == 3 {
        "3"
    } else if d == 4 {
        "4"
    } else if d == 5 {
        "5"
    } else if d == 6 {
        "6"
    } else if d == 7 {
        "7"
    } else if d == 8 {
        "8"
    } else {
        "9"
    };
    proof {
        reveal_strlit("0");
        reveal_strlit("1");
        reveal_strlit("2");
        reveal_strlit("3");
        reveal_strlit("4");
        reveal_strlit("5");
        reveal_strlit("6");
        reveal_strlit("7");
        reveal_strlit("8");
        reveal_strlit("9");
        assert(r@ =~= seq![digit_char(d as nat)]);
    }
    r
}

/// Renders `n` in decimal notation.
pub fn decimal_string(n: u64) -> (r: String)
    ensures
        r@ == decimal(n as nat),
{
    let mut rest: u64 = n / 10;
    let mut out: String = String::from_str(digit_str(n % 10));
    proof {
        reveal_with_fuel(decimal, 2);
        if n >= 10 {
            assert(decimal(n as nat) =~= decimal(rest as nat) + out@);
        }
    }
    while rest > 0
        invariant
            rest == 0 ==> out@ == decimal(n as nat),
            rest > 0 ==> decimal(n as nat) == decimal(rest as nat) + out@,
        decreases rest,
    {
        let head = String::from_str(digit_str(rest % 10));
        let ghost before = out@;
        let ghost prev = rest;
        out = head.concat(out.as_str());
        rest = rest / 10;
        proof {
            if prev < 10 {
                assert(decimal(prev as nat) =~= head@);
                assert(out@ =~= decimal(prev as nat) + before);
            } else {
                assert(decimal(prev as nat) =~= decimal(rest as nat) + head@);
                assert(out@ =~= head@ + before);
                assert(decimal(n as nat) =~= decimal(rest as nat) + out@);
            }
        }
    }
    out
}

/// The streaming counterpart of a scheme: `ws` for `http`, `wss` for
/// `https`, and none for any other.
pub open spec fn streaming_scheme(scheme: Seq<char>) -> Option<Seq<char>> {
    if scheme == "http"@ {
        Some("ws"@)
    } else if scheme == "https"@ {
        Some("wss"@)
    } else {
        None
    }
}

/// Maps a scheme to its streaming counterpart, where it has one.
pub fn to_streaming_scheme(scheme: &str) -> (r: Option<String>)
    ensures
        match streaming_scheme(scheme@) {
            Some(streaming) => r matches Some(s) && s@ == streaming,
            None => r is None,
        },
{
    let given = String::from_str(scheme);
    if given == String::from_str("http") {
        Some(String::from_str("ws"))
    } else if given == String::from_str("https") {
        Some(String::from_str("wss"))
    } else {
        None
    }
}

/// The streaming counterpart of `http` is `ws`, that of `https` is `wss`,
/// and the two streaming schemes have none themselves.
pub proof fn lemma_streaming_scheme_of_http()
    ensures
        streaming_scheme(seq!['h', 't', 't', 'p']) == Some(seq!['w', 's']),
        streaming_scheme(seq!['h', 't', 't', 'p', 's']) == Some(seq!['w', 's', 's']),
        streaming_scheme(seq!['w', 's']) is None,
        streaming_scheme(seq!['w', 's', 's']) is None,
{
    reveal_strlit("http");
    reveal_strlit("https");
    reveal_strlit("ws");
    reveal_strlit("wss");
    assert("http"@ =~= seq!['h', 't', 't', 'p']);
    assert("https"@ =~= seq!['h', 't', 't', 'p', 's']);
    assert("ws"@ =~= seq!['w', 's']);
    assert("wss"@ =~= seq!['w', 's', 's']);
    assert("http"@.len() != "https"@.len());
    assert("ws"@.len() != "http"@.len());
    assert("ws"@.len() != "https"@.len());
    assert("wss"@.len() != "http"@.len());
    assert("wss"@.len() != "https"@.len());
}

/// Whether a character ends the path of a URL: the mark of a query or of a
/// fragment.
pub open spec fn ends_path(c: char) -> bool {
    c == '?' || c == '#'
}

/// What stands in `text` before its first `?` or `#`.
pub open spec fn stem(text: Seq<char>) -> Seq<char>
    decreases text.len(),
{
    if text.len() == 0 || ends_path(text[0]) {
        Seq::empty()
    } else {
        seq![text[0]] + stem(text.skip(1))
    }
}

/// The address below which the endpoints of `text` lie: `text` without its
/// query and fragment, and with a slash at its end.
pub open spec fn directory(text: Seq<char>) -> Seq<char> {
    let s = stem(text);
    if s.len() > 0 && s.last() == '/' {
        s
    } else {
        s.push('/')
    }
}

/// The stem of a text is what precedes the first character that ends the path.
proof fn lemma_stem_is_prefix(text: Seq<char>, cut: int)
    requires
        0 <= cut <= text.len(),
        forall|j: int| 0 <= j < cut ==> !ends_path(#[trigger] text[j]),
        cut < text.len() ==> ends_path(text[cut]),
    ensures
        stem(text) == text.take(cut),
    decreases text.len(),
{
    if cut == 0 {
        assert(text.take(0) =~= Seq::<char>::empty());
    } else {
        assert(!ends_path(text[0]));
        let rest = text.skip(1);
        assert forall|j: int| 0 <= j < cut - 1 implies !ends_path(#[trigger] rest[j]) by {
            assert(rest[j] == text[j + 1]);
        }
        lemma_stem_is_prefix(rest, cut - 1);
        assert(seq![text[0]] + rest.take(cut - 1) =~= text.take(cut));
    }
}

/// Gives the address below which the endpoints of `address` lie.
pub fn directory_of(address: &str) -> (r: String)
    ensures
        r@ == directory(address@),
{
    let n = address.unicode_len();
    let mut cut: usize = 0;
    while cut < n && address.get_char(cut) != '?' && address.get_char(cut) != '#'
        invariant
            n == address@.len(),
            cut <= n,
            forall|j: int| 0 <= j < cut ==> !ends_path(#[trigger] address@[j]),
        decreases n - cut,
    {
        cut = cut + 1;
    }
    proof {
        lemma_stem_is_prefix(address@, cut as int);
    }
    let mut out = String::from_str(address.substring_char(0, cut));
    if cut == 0 || address.get_char(cut - 1) != '/' {
        out.append("/");
        proof {
            reveal_strlit("/");
            assert(out@ =~= stem(address@).push('/'));
        }
    }
    out
}

} // verus!
