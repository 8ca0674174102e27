//! Sync addresses and the companion-config line that carries one.
//!
//! The sync server listens on one well-known port; the addresses shown
//! to the user and the `syncaddr` line written into the companion's
//! configuration are all built from the discovered LAN address.

use vstd::prelude::*;

verus! {

/// A substring match of `needle` at offset `i` of `hay`.
pub open spec fn is_match_at(hay: Seq<char>, needle: Seq<char>, i: int) -> bool {
    0 <= i && i + needle.len() <= hay.len() && hay.subrange(i, i + needle.len()) == needle
}

/// Whether `needle` occurs anywhere in `hay`.
pub open spec fn contains_seq(hay: Seq<char>, needle: Seq<char>) -> bool {
    exists|i: int| is_match_at(hay, needle, i)
}

/// Whether `needle` occurs anywhere in `hay`.
pub fn contains_substring(hay: &str, needle: &str) -> (found: bool)
    ensures
        found == contains_seq(hay@, needle@),
{
    let n = hay.unicode_len();
    let m = needle.unicode_len();
    if m > n {
        assert(forall|i: int| !is_match_at(hay@, needle@, i));
        return false;
    }
    let mut i: usize = 0;
    while i <= n - m
        invariant
            m <= n,
            n == hay@.len(),
            m == needle@.len(),
            i <= n - m + 1,
            forall|k: int| 0 <= k < i ==> !is_match_at(hay@, needle@, k),
        decreases n - m + 1 - i,
    {
        let mut j: usize = 0;
        while j < m && hay.get_char(i + j) == needle.get_char(j)
            invariant
                m <= n,
                n == hay@.len(),
                m == needle@.len(),
                i + m <= n,
                j <= m,
                forall|t: int| 0 <= t < j ==> hay@[i + t] == needle@[t],
            decreases m - j,
        {
            j += 1;
        }
        if j == m {
            assert(is_match_at(hay@, needle@, i as int)) by {
                assert(hay@.subrange(i as int, i + m) =~= needle@);
            };
            return true;
        }
        assert(!is_match_at(hay@, needle@, i as int)) by {
            if is_match_at(hay@, needle@, i as int) {
                assert(hay@.subrange(i as int, i + m)[j as int] == needle@[j as int]);
            }
        };
        i += 1;
    }
    assert(forall|k: int| !is_match_at(hay@, needle@, k));
    false
}

/// The sync address shown to the user for a LAN address.
pub open spec fn sync_addr_seq(ip: Seq<char>) -> Seq<char> {
    "https://"@ + ip + ":27701"@
}

/// The sync address shown to the user for a LAN address.
pub fn sync_addr_of(ip: &str) -> (addr: String)
    ensures
        addr@ == sync_addr_seq(ip@),
{
    let mut addr = String::from_str("https://");
    addr.append(ip);
    addr.append(":27701");
    addr
}

/// The media sync address shown to the user for a LAN address.
pub open spec fn media_addr_seq(ip: Seq<char>) -> Seq<char> {
    "https://"@ + ip + ":27701/msync"@
}

/// The media sync address shown to the user for a LAN address.
pub fn media_addr_of(ip: &str) -> (addr: String)
    ensures
        addr@ == media_addr_seq(ip@),
{
    let mut addr = String::from_str("https://");
    addr.append(ip);
    addr.append(":27701/msync");
    addr
}

/// The `syncaddr` line of the companion's configuration for a LAN
/// address.
pub open spec fn syncaddr_line_seq(ip: Seq<char>) -> Seq<char> {
    "\"syncaddr\":\"https://"@ + ip + ":27701/\""@
}

/// The `syncaddr` line of the companion's configuration for a LAN
/// address.
pub fn syncaddr_config_line(ip: &str) -> (line: String)
    ensures
        line@ == syncaddr_line_seq(ip@),
{
    let mut line = String::from_str("\"syncaddr\":\"https://");
    line.append(ip);
    line.append(":27701/\"");
    line
}

/// Rewrites one configuration line: a line that carries the `syncaddr`
/// key is replaced by the line for the given address, every other line
/// stays as it is. The flag reports whether the line carried the key
/// but not yet this address — the address actually changed.
pub fn rewrite_syncaddr_line(line: &str, ip: &str) -> (r: (String, bool))
    ensures
        contains_seq(line@, "syncaddr"@) ==> r.0@ == syncaddr_line_seq(ip@) && r.1 == !contains_seq(
            line@,
            ip@,
        ),
        !contains_seq(line@, "syncaddr"@) ==> r.0@ == line@ && r.1 == false,
{
    if contains_substring(line, "syncaddr") {
        let changed = !contains_substring(line, ip);
        (syncaddr_config_line(ip), changed)
    } else {
        (line.to_owned(), false)
    }
}

/// Rewrites a whole configuration, line by line, as
/// `rewrite_syncaddr_line` does, and reports whether any line's address
/// actually changed.
pub fn rewrite_syncaddr_config(lines: &Vec<String>, ip: &str) -> (r: (Vec<String>, bool))
    ensures
        r.0@.len() == lines@.len(),
        forall|k: int|
            0 <= k < lines@.len() ==> r.0@[k]@ == (if contains_seq(lines@[k]@, "syncaddr"@) {
                syncaddr_line_seq(ip@)
            } else {
                lines@[k]@
            }),
        r.1 == exists|k: int|
            0 <= k < lines@.len() && contains_seq(lines@[k]@, "syncaddr"@) && !contains_seq(
                lines@[k]@,
                ip@,
            ),
{
    let mut out: Vec<String> = Vec::new();
    let mut changed = false;
    let mut i: usize = 0;
    while i < lines.len()
        invariant
            i <= lines@.len(),
            out@.len() == i,
            forall|k: int|
                0 <= k < i ==> out@[k]@ == (if contains_seq(lines@[k]@, "syncaddr"@) {
                    syncaddr_line_seq(ip@)
                } else {
                    lines@[k]@
                }),
            changed == exists|k: int|
                0 <= k < i && contains_seq(lines@[k]@, "syncaddr"@) && !contains_seq(
                    lines@[k]@,
                    ip@,
                ),
        decreases lines@.len() - i,
    {
        let (rewritten, line_changed) = rewrite_syncaddr_line(lines[i].as_str(), ip);
        out.push(rewritten);
        changed = changed || line_changed;
        i += 1;
    }
    (out, changed)
}

} // verus!
