use vstd::prelude::*;

verus! {

/// The name an archive is stored under: the configured prefix and the file's
/// own name.
pub fn object_name(path_prefix: &str, file_name: &str) -> (r: String)
    ensures
        r@ == path_prefix@ + file_name@,
{
    String::from_str(path_prefix).concat(file_name)
}

/// The address of a stored object: the storage domain and the key that the
/// storage answered with, joined by a slash.
pub fn object_location(domain: &str, key: &str) -> (r: String)
    ensures
        r@ == domain@ + "/"@ + key@,
{
    String::from_str(domain).concat("/").concat(key)
}

/// Whether two texts are the same.
fn same_text(a: &str, b: &str) -> (r: bool)
    ensures
        r == (a@ == b@),
{
    let n = a.unicode_len();
    if n != b.unicode_len() {
        return false;
    }
    let mut i: usize = 0;
    while i < n
        invariant
            n == a@.len(),
            n == b@.len(),
            i <= n,
            a@.subrange(0, i as int) == b@.subrange(0, i as int),
        decreases n - i,
    {
        if a.get_char(i) != b.get_char(i) {
            return false;
        }
        assert(a@.subrange(0, i + 1) =~= a@.subrange(0, i as int).push(a@[i as int]));
        assert(b@.subrange(0, i + 1) =~= b@.subrange(0, i as int).push(b@[i as int]));
        i = i + 1;
    }
    assert(a@.subrange(0, n as int) =~= a@);
    assert(b@.subrange(0, n as int) =~= b@);
    true
}

/// Whether the storage domain's URL scheme is one the uploads accept:
/// `http` or `https`.
pub fn is_web_scheme(scheme: &str) -> (r: bool)
    ensures
        r == (scheme@ == "http"@ || scheme@ == "https"@),
{
    same_text(scheme, "http") || same_text(scheme, "https")
}

} // verus!
