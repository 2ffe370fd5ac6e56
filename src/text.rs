use vstd::prelude::*;
use vstd::string::StringSliceAdditionalSpecFns;
use vstd::utf8::encode_utf8;

verus! {

/// A fixed-size UTF-16 buffer holds `text` (given as bytes, one unit each): the text fills
/// the buffer or is followed by a NUL unit.
pub open spec fn wide_matches(buf: Seq<u16>, text: Seq<u8>) -> bool {
    &&& text.len() <= buf.len()
    &&& forall|i: int| 0 <= i < text.len() ==> buf[i] == #[trigger] text[i] as u16
    &&& (text.len() == buf.len() || buf[text.len() as int] == 0)
}

/// `pat` occurs in `hay` as a contiguous run.
pub open spec fn bytes_contain(hay: Seq<u8>, pat: Seq<u8>) -> bool {
    exists|i: int|
        0 <= i && i + pat.len() <= hay.len() && #[trigger] hay.subrange(i, i + pat.len()) == pat
}

/// `pat` occurs in the UTF-8 encoding of `hay`.
pub open spec fn text_contains(hay: Seq<char>, pat: &str) -> bool {
    bytes_contain(encode_utf8(hay), pat.spec_bytes())
}

/// One of `names` has exactly the characters of `name`.
pub open spec fn names_contain(names: Seq<&str>, name: Seq<char>) -> bool {
    exists|i: int| 0 <= i < names.len() && (#[trigger] names[i])@ == name
}

/// Whether the buffer `buf` holds the text `path`, see `wide_matches`.
pub fn wide_equals(buf: &Vec<u16>, path: &str) -> (r: bool)
    ensures
        r == wide_matches(buf@, path.spec_bytes()),
{
    let t = path.as_bytes();
    let tlen = t.len();
    let blen = buf.len();
    if tlen > blen {
        return false;
    }
    let mut i: usize = 0;
    while i < tlen
        invariant
            tlen == t@.len(),
            t@ == path.spec_bytes(),
            blen == buf@.len(),
            tlen <= blen,
            i <= tlen,
            forall|k: int| 0 <= k < i ==> buf@[k] == #[trigger] t@[k] as u16,
        decreases tlen - i,
    {
        if buf[i] != t[i] as u16 {
            assert(buf@[i as int] != t@[i as int] as u16);
            return false;
        }
        i = i + 1;
    }
    tlen == blen || buf[tlen] == 0
}

/// Whether two buffers hold the same units.
pub fn same_units(a: &Vec<u16>, b: &Vec<u16>) -> (r: bool)
    ensures
        r == (a@ == b@),
{
    let n = a.len();
    if n != b.len() {
        return false;
    }
    let mut i: usize = 0;
    while i < n
        invariant
            n == a@.len(),
            n == b@.len(),
            i <= n,
            forall|k: int| 0 <= k < i ==> a@[k] == b@[k],
        decreases n - i,
    {
        if a[i] != b[i] {
            return false;
        }
        i = i + 1;
    }
    assert(a@ =~= b@);
    true
}

fn bytes_match_at(hay: &[u8], pat: &[u8], i: usize) -> (r: bool)
    requires
        i + pat@.len() <= hay@.len(),
    ensures
        r == (hay@.subrange(i as int, i + pat@.len()) == pat@),
{
    let n = pat.len();
    let hl = hay.len();
    let mut j: usize = 0;
    while j < n
        invariant
            n == pat@.len(),
            hl == hay@.len(),
            i + n <= hay@.len(),
            j <= n,
            forall|k: int| 0 <= k < j ==> hay@[i + k] == pat@[k],
        decreases n - j,
    {
        if hay[i + j] != pat[j] {
            assert(hay@.subrange(i as int, i + n)[j as int] != pat@[j as int]);
            return false;
        }
        j = j + 1;
    }
    assert(hay@.subrange(i as int, i + n) =~= pat@);
    true
}

/// Whether the UTF-8 encoding of `hay` contains that of `pat`.
pub fn contains_text(hay: &String, pat: &str) -> (r: bool)
    ensures
        r == text_contains(hay@, pat),
{
    let h = hay.as_str().as_bytes();
    let p = pat.as_bytes();
    let hlen = h.len();
    let plen = p.len();
    if plen > hlen {
        return false;
    }
    assert(h@ == encode_utf8(hay@));
    let last = hlen - plen;
    let mut i: usize = 0;
    while i < last
        invariant
            hlen == h@.len(),
            plen == p@.len(),
            last == hlen - plen,
            h@ == encode_utf8(hay@),
            p@ == pat.spec_bytes(),
            i <= last,
            forall|k: int| 0 <= k < i ==> #[trigger] h@.subrange(k, k + plen) != p@,
        decreases last - i,
    {
        if bytes_match_at(h, p, i) {
            assert(h@.subrange(i as int, i + plen) == p@);
            return true;
        }
        i = i + 1;
    }
    let found = bytes_match_at(h, p, last);
    assert(found ==> h@.subrange(last as int, last + plen) == p@);
    found
}

/// Whether one of `names` is `name`.
pub fn contains_name(names: &Vec<&str>, name: &String) -> (r: bool)
    ensures
        r == names_contain(names@, name@),
{
    let n = names.len();
    let mut i: usize = 0;
    while i < n
        invariant
            n == names@.len(),
            i <= n,
            forall|k: int| 0 <= k < i ==> (#[trigger] names@[k])@ != name@,
        decreases n - i,
    {
        let candidate: String = names[i].to_owned();
        if candidate == *name {
            return true;
        }
        i = i + 1;
    }
    false
}

} // verus!
