//! Error messages made fit for clients: filesystem paths, container ids and
//! IP addresses are masked, and the text is bounded in length.
use vstd::prelude::*;
use vstd::string::{StrSliceExecFns, StringExecFns, StringSliceAdditionalSpecFns};
use vstd::utf8::{encode_utf8, is_char_boundary};
use crate::bytes::{first_index, occurs_at};

verus! {

/// The longest message, in bytes, before it is cut.
pub const MAX_MESSAGE_BYTES: usize = 500;

/// Whether `c` has Unicode's White_Space property.
pub open spec fn unicode_whitespace(c: char) -> bool {
    let u = c as u32;
    ||| 0x09 <= u <= 0x0d
    ||| u == 0x20
    ||| u == 0x85
    ||| u == 0xa0
    ||| u == 0x1680
    ||| 0x2000 <= u <= 0x200a
    ||| u == 0x2028
    ||| u == 0x2029
    ||| u == 0x202f
    ||| u == 0x205f
    ||| u == 0x3000
}

/// A character of the class `[a-f0-9]`.
pub open spec fn lower_hex(c: char) -> bool {
    ('0' <= c && c <= '9') || ('a' <= c && c <= 'f')
}

/// Sixty-four characters of `[a-f0-9]` start at `i`.
pub open spec fn hex_run_at(s: Seq<char>, i: int) -> bool {
    0 <= i && i + 64 <= s.len() && forall|j: int| 0 <= j < 64 ==> lower_hex(#[trigger] s[i + j])
}

/// The leftmost start at or after `i` of such a run.
pub open spec fn first_hex_run(s: Seq<char>, i: int) -> Option<int>
    decreases s.len() - i,
{
    if i < 0 || i + 64 > s.len() {
        None
    } else if hex_run_at(s, i) {
        Some(i)
    } else {
        first_hex_run(s, i + 1)
    }
}

/// `s` with the leftmost run of 64 characters of `[a-f0-9]` replaced by
/// `[ID]`.
pub open spec fn container_id_masked(s: Seq<char>) -> Seq<char> {
    match first_hex_run(s, 0) {
        Some(i) => s.subrange(0, i) + "[ID]"@ + s.subrange(i + 64, s.len() as int),
        None => s,
    }
}

/// `s` with its first dotted quad of 1-3 digit groups replaced by `[IP]`.
pub uninterp spec fn ip_masked(s: Seq<char>) -> Seq<char>;

/// Relies on char::is_whitespace: the White_Space property.
#[verifier::external_body]
fn is_whitespace(c: char) -> (r: bool)
    ensures
        r == unicode_whitespace(c),
{
    c.is_whitespace()
}

/// Relies on regex's Regex::replace with the pattern `[a-f0-9]{64}`: the
/// leftmost match, exactly 64 characters, is replaced, and only that one.
#[verifier::external_body]
fn mask_container_id(s: &str) -> (r: String)
    ensures
        r@ == container_id_masked(s@),
{
    regex::Regex::new(r"[a-f0-9]{64}").unwrap().replace(s, "[ID]").to_string()
}

/// Relies on regex's Regex::replace with the pattern
/// `\d{1,3}\.\d{1,3}\.\d{1,3}\.\d{1,3}`, which replaces the leftmost match only.
#[verifier::external_body]
fn mask_ip(s: &str) -> (r: String)
    ensures
        r@ == ip_masked(s@),
{
    regex::Regex::new(r"\d{1,3}\.\d{1,3}\.\d{1,3}\.\d{1,3}").unwrap().replace(s, "[IP]").to_string()
}

/// The path prefixes that are masked, in the order they are looked for.
pub open spec fn path_patterns() -> Seq<Seq<char>> {
    seq![
        "/data/claw-pen/"@,
        "/var/lib/"@,
        "/etc/"@,
        "/home/"@,
        "/root/"@,
        "/usr/"@,
        "/opt/"@,
        "C:\\"@,
        "\\\\"@,
    ]
}

/// A path runs until whitespace or a quote.
pub open spec fn ends_path(c: char) -> bool {
    unicode_whitespace(c) || c == '"' || c == '\''
}

/// The first index at or after `i` that ends a path, or the length of `s`.
pub open spec fn path_end(s: Seq<char>, i: int) -> int
    decreases s.len() - i,
{
    if i < 0 || i >= s.len() {
        s.len() as int
    } else if ends_path(s[i]) {
        i
    } else {
        path_end(s, i + 1)
    }
}

/// `s` with the path at the first occurrence of `pattern` replaced by
/// `[PATH]`.
pub open spec fn mask_path(s: Seq<char>, pattern: Seq<char>) -> Seq<char> {
    match first_index(s, pattern, 0) {
        None => s,
        Some(start) => s.subrange(0, start) + "[PATH]"@ + s.subrange(path_end(s, start), s.len() as int),
    }
}

/// `s` after masking the first `k` patterns in turn.
pub open spec fn mask_paths(s: Seq<char>, k: nat) -> Seq<char>
    decreases k,
{
    if k == 0 {
        s
    } else {
        mask_path(mask_paths(s, (k - 1) as nat), path_patterns()[k - 1])
    }
}

/// The largest char boundary of `b` at or below `i`.
pub open spec fn boundary_at_or_below(b: Seq<u8>, i: nat) -> nat
    decreases i,
{
    if i == 0 || is_char_boundary(b, i as int) {
        i
    } else {
        boundary_at_or_below(b, (i - 1) as nat)
    }
}

fn find_chars(s: &str, n: usize, p: &str, m: usize) -> (r: Option<usize>)
    requires
        n == s@.len(),
        m == p@.len(),
    ensures
        r matches Some(i) ==> first_index(s@, p@, 0) == Some(i as int),
        r is None ==> first_index(s@, p@, 0) is None,
{
    if m > n {
        return None;
    }
    let mut i: usize = 0;
    while i <= n - m
        invariant
            n == s@.len(),
            m == p@.len(),
            m <= n,
            i <= n - m + 1,
            first_index(s@, p@, 0) == first_index(s@, p@, i as int),
        decreases n - m + 1 - i,
    {
        let mut k: usize = 0;
        let mut same = true;
        while k < m && same
            invariant
                n == s@.len(),
                m == p@.len(),
                i + m <= n,
                k <= m,
                same == forall|j: int| 0 <= j < k ==> s@[i + j] == p@[j],
            decreases m - k,
        {
            if s.get_char(i + k) != p.get_char(k) {
                same = false;
            }
            k = k + 1;
        }
        proof {
            if same {
                assert(s@.subrange(i as int, i + m) =~= p@);
            } else {
                let j = choose|j: int| 0 <= j < k && s@[i + j] != p@[j];
                assert(s@.subrange(i as int, i + m)[j] != p@[j]);
            }
        }
        if same {
            return Some(i);
        }
        if i == n - m {
            assert(first_index(s@, p@, i + 1) is None);
            return None;
        }
        i = i + 1;
    }
    None
}

proof fn lemma_path_end(s: Seq<char>, i: int, e: int)
    requires
        0 <= i <= e <= s.len(),
        forall|j: int| i <= j < e ==> !ends_path(s[j]),
        e == s.len() || ends_path(s[e]),
    ensures
        path_end(s, i) == e,
    decreases e - i,
{
    if i < e {
        lemma_path_end(s, i + 1, e);
    }
}

fn mask_path_in(s: &str, pattern: &str) -> (r: String)
    ensures
        r@ == mask_path(s@, pattern@),
{
    let n = s.unicode_len();
    let m = pattern.unicode_len();
    match find_chars(s, n, pattern, m) {
        None => String::from_str(s),
        Some(start) => {
            proof {
                crate::bytes::lemma_first_index_some(s@, pattern@, 0);
            }
            let mut end: usize = start;
            while end < n && !(is_whitespace(s.get_char(end)) || s.get_char(end) == '"' || s.get_char(
                end,
            ) == '\'')
                invariant
                    n == s@.len(),
                    start <= end <= n,
                    forall|j: int| start <= j < end ==> !ends_path(#[trigger] s@[j]),
                decreases n - end,
            {
                end = end + 1;
            }
            proof {
                lemma_path_end(s@, start as int, end as int);
            }
            let mut r = String::from_str(s.substring_char(0, start));
            r.append("[PATH]");
            r.append(s.substring_char(end, n));
            r
        },
    }
}

fn path_pattern(k: usize) -> (r: &'static str)
    requires
        k < 9,
    ensures
        r@ == path_patterns()[k as int],
{
    if k == 0 {
        "/data/claw-pen/"
    } else if k == 1 {
        "/var/lib/"
    } else if k == 2 {
        "/etc/"
    } else if k == 3 {
        "/home/"
    } else if k == 4 {
        "/root/"
    } else if k == 5 {
        "/usr/"
    } else if k == 6 {
        "/opt/"
    } else if k == 7 {
        "C:\\"
    } else {
        "\\\\"
    }
}

/// `error` with the first path under each of the masked prefixes replaced
/// by `[PATH]`, then the first container id by `[ID]` and the first IP
/// address by `[IP]`; a result over 500 bytes is cut at the last char
/// boundary within them and `...` is added.
pub fn sanitize_error_message(error: &str) -> (r: String)
    ensures
        ({
            let masked = ip_masked(container_id_masked(mask_paths(error@, 9)));
            let b = encode_utf8(masked);
            &&& b.len() <= MAX_MESSAGE_BYTES ==> r@ == masked
            &&& b.len() > MAX_MESSAGE_BYTES ==> exists|head: Seq<char>|
                r@ == head + "..."@ && encode_utf8(head) == b.subrange(
                    0,
                    boundary_at_or_below(b, MAX_MESSAGE_BYTES as nat) as int,
                )
        }),
{
    let mut current = String::from_str(error);
    let mut k: usize = 0;
    while k < 9
        invariant
            k <= 9,
            current@ == mask_paths(error@, k as nat),
        decreases 9 - k,
    {
        let next = mask_path_in(current.as_str(), path_pattern(k));
        current = next;
        k = k + 1;
    }
    let with_id = mask_container_id(current.as_str());
    let masked = mask_ip(with_id.as_str());
    let text = masked.as_str();
    let len = text.as_bytes().len();
    if len <= MAX_MESSAGE_BYTES {
        return masked;
    }
    let mut cut: usize = MAX_MESSAGE_BYTES;
    while cut > 0 && !text.is_char_boundary(cut)
        invariant
            cut <= MAX_MESSAGE_BYTES,
            boundary_at_or_below(text.spec_bytes(), cut as nat) == boundary_at_or_below(
                text.spec_bytes(),
                MAX_MESSAGE_BYTES as nat,
            ),
        decreases cut,
    {
        cut = cut - 1;
    }
    proof {
        vstd::utf8::encode_utf8_valid_utf8(text@);
    }
    let (head, _) = text.split_at(cut);
    let mut r = String::from_str(head);
    r.append("...");
    proof {
        assert(encode_utf8(head@) == text.spec_bytes().subrange(0, cut as int));
    }
    r
}

} // verus!
