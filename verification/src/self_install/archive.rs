//! Verifying a release archive.
//!
//! Each archive is listed in `SHA256SUMS` in `sha256sum` format with bare
//! file names. When the application declares a minisign public key,
//! `SHA256SUMS.minisig` signs the sums file, so one signature covers every
//! asset of the release. An archive that names any entry with an absolute
//! path or a `..` component is rejected outright.

use crate::text::{
    chars_of, contains_seq, has_char, has_char_exec, is_space, lower_seq, lower_vec, owned,
    push_str, replace_all, replace_vec, seq_eq, seqs, slice_range, split_char, split_on,
    string_of, trim_end_seq, trim_end_vec, trim_start_seq, trim_start_vec, trim_seq, trim_vec,
    debug_quoted, debug_repr, is_space_exec, is_ascii_hex, upper_seq, ends_with, is_suffix_of,
    to_lowercase, unicode_lower,
};
use sha2::Digest;
use std::io::Read;
use vstd::prelude::*;

verus! {

pub open spec fn sums_file() -> Seq<char> {
    "SHA256SUMS"@
}

pub open spec fn signature_file() -> Seq<char> {
    "SHA256SUMS.minisig"@
}

/// Why an archive was refused. Paths are held as text.
#[derive(Debug)]
pub enum ArchiveError {
    Io { path: String, message: String },
    NotListed { asset: String },
    Mismatch { asset: String, expected: String, actual: String },
    BadSignature(String),
    Unsigned(String),
    BadPublicKey(String),
    UnsafeEntry { archive: String, entry: String },
    MissingBinary { archive: String, binary: String },
    UnknownFormat(String),
    Corrupt { archive: String, message: String },
}

impl ArchiveError {
    /// The error's text.
    pub fn message(&self) -> (out: String)
        ensures
            match self {
                ArchiveError::Io { path, message } => out@ == "cannot read "@ + path@ + ": "@
                    + message@,
                ArchiveError::NotListed { asset } => out@ == asset@ + " is not listed in SHA256SUMS"@,
                ArchiveError::Mismatch { asset, expected, actual } => out@
                    == "checksum mismatch for "@ + asset@ + ": expected "@ + expected@ + ", got "@
                    + actual@,
                ArchiveError::BadSignature(e) => out@
                    == "SHA256SUMS.minisig does not verify against the application's public key: "@
                    + e@,
                ArchiveError::Unsigned(a) => out@ == a@
                    + " has no SHA256SUMS.minisig, and this application only accepts signed releases"@,
                ArchiveError::BadPublicKey(e) => out@
                    == "the application's minisign public key is invalid: "@ + e@,
                ArchiveError::UnsafeEntry { archive, entry } => out@ == archive@
                    + " holds an unsafe entry path "@ + debug_repr(entry@),
                ArchiveError::MissingBinary { archive, binary } => out@ == archive@
                    + " does not contain "@ + binary@,
                ArchiveError::UnknownFormat(p) => out@ == p@
                    + " is neither a .tar.gz nor a .zip archive"@,
                ArchiveError::Corrupt { archive, message } => out@ == archive@
                    + " is not a valid archive: "@ + message@,
            },
    {
        let mut out = String::new();
        match self {
            ArchiveError::Io { path, message } => {
                push_str(&mut out, "cannot read ");
                push_str(&mut out, path.as_str());
                push_str(&mut out, ": ");
                push_str(&mut out, message.as_str());
            },
            ArchiveError::NotListed { asset } => {
                push_str(&mut out, asset.as_str());
                push_str(&mut out, " is not listed in SHA256SUMS");
            },
            ArchiveError::Mismatch { asset, expected, actual } => {
                push_str(&mut out, "checksum mismatch for ");
                push_str(&mut out, asset.as_str());
                push_str(&mut out, ": expected ");
                push_str(&mut out, expected.as_str());
                push_str(&mut out, ", got ");
                push_str(&mut out, actual.as_str());
            },
            ArchiveError::BadSignature(e) => {
                push_str(
                    &mut out,
                    "SHA256SUMS.minisig does not verify against the application's public key: ",
                );
                push_str(&mut out, e.as_str());
            },
            ArchiveError::Unsigned(a) => {
                push_str(&mut out, a.as_str());
                push_str(
                    &mut out,
                    " has no SHA256SUMS.minisig, and this application only accepts signed releases",
                );
            },
            ArchiveError::BadPublicKey(e) => {
                push_str(&mut out, "the application's minisign public key is invalid: ");
                push_str(&mut out, e.as_str());
            },
            ArchiveError::UnsafeEntry { archive, entry } => {
                push_str(&mut out, archive.as_str());
                push_str(&mut out, " holds an unsafe entry path ");
                let q = debug_quoted(entry.as_str());
                push_str(&mut out, q.as_str());
            },
            ArchiveError::MissingBinary { archive, binary } => {
                push_str(&mut out, archive.as_str());
                push_str(&mut out, " does not contain ");
                push_str(&mut out, binary.as_str());
            },
            ArchiveError::UnknownFormat(p) => {
                push_str(&mut out, p.as_str());
                push_str(&mut out, " is neither a .tar.gz nor a .zip archive");
            },
            ArchiveError::Corrupt { archive, message } => {
                push_str(&mut out, archive.as_str());
                push_str(&mut out, " is not a valid archive: ");
                push_str(&mut out, message.as_str());
            },
        }
        out
    }
}

/// The lines of a text: pieces between `\n`, without an empty piece after
/// a final newline.
pub open spec fn lines_of(s: Seq<char>) -> Seq<Seq<char>> {
    let parts = split_on(s, '\n');
    if parts.len() > 0 && parts.last().len() == 0 {
        parts.drop_last()
    } else {
        parts
    }
}

/// The index of the first whitespace character; the length when none.
pub open spec fn first_space(s: Seq<char>) -> int
    decreases s.len(),
{
    if s.len() == 0 {
        0
    } else if is_space(s[0]) {
        0
    } else {
        1 + first_space(s.drop_first())
    }
}

pub proof fn lemma_first_space(s: Seq<char>)
    ensures
        0 <= first_space(s) <= s.len(),
        first_space(s) < s.len() ==> is_space(s[first_space(s)]),
        forall|j: int| 0 <= j < first_space(s) ==> !is_space(#[trigger] s[j]),
    decreases s.len(),
{
    if s.len() > 0 && !is_space(s[0]) {
        lemma_first_space(s.drop_first());
        assert forall|j: int| 0 <= j < first_space(s) implies !is_space(#[trigger] s[j]) by {
            if j > 0 {
                assert(s[j] == s.drop_first()[j - 1]);
            }
        }
    }
}

/// The digest one line records for `asset`: `hash  name` or `hash *name`,
/// the hash 64 hex digits, lower-cased.
pub open spec fn line_digest(line: Seq<char>, asset: Seq<char>) -> Option<Seq<char>> {
    let t = trim_end_seq(line);
    let i = first_space(t);
    if i >= t.len() {
        None
    } else {
        let hash = t.subrange(0, i);
        let name0 = trim_start_seq(t.subrange(i + 1, t.len() as int));
        let name = if name0.len() > 0 && name0[0] == '*' {
            name0.drop_first()
        } else {
            name0
        };
        if name == asset && hash.len() == 64 && (forall|k: int|
            0 <= k < hash.len() ==> is_ascii_hex(#[trigger] hash[k])) {
            Some(lower_seq(hash))
        } else {
            None
        }
    }
}

/// The first line's digest for `asset`.
pub open spec fn digest_in(lines: Seq<Seq<char>>, asset: Seq<char>) -> Option<Seq<char>>
    decreases lines.len(),
{
    if lines.len() == 0 {
        None
    } else {
        match line_digest(lines[0], asset) {
            Some(d) => Some(d),
            None => digest_in(lines.drop_first(), asset),
        }
    }
}

fn first_space_exec(s: &Vec<char>) -> (i: usize)
    ensures
        i as int == first_space(s@),
{
    proof {
        lemma_first_space(s@);
    }
    let mut i: usize = 0;
    while i < s.len() && !is_space_exec(s[i])
        invariant
            i <= s@.len(),
            forall|j: int| 0 <= j < i ==> !is_space(#[trigger] s@[j]),
            0 <= first_space(s@) <= s@.len(),
            first_space(s@) < s@.len() ==> is_space(s@[first_space(s@)]),
            forall|j: int| 0 <= j < first_space(s@) ==> !is_space(#[trigger] s@[j]),
        decreases s.len() - i,
    {
        i = i + 1;
    }
    i
}

fn line_digest_exec(line: &Vec<char>, asset: &Vec<char>) -> (r: Option<Vec<char>>)
    ensures
        match r {
            Some(d) => line_digest(line@, asset@) == Some(d@),
            None => line_digest(line@, asset@) is None,
        },
{
    let t = trim_end_vec(line.as_slice());
    let i = first_space_exec(&t);
    if i >= t.len() {
        return None;
    }
    let hash = slice_range(t.as_slice(), 0, i);
    let name0 = trim_start_vec(slice_range(t.as_slice(), i + 1, t.len()).as_slice());
    let name = if name0.len() > 0 && name0[0] == '*' {
        slice_range(name0.as_slice(), 1, name0.len())
    } else {
        name0
    };
    assert(name0.len() > 0 && name0@[0] == '*' ==> name@ =~= name0@.drop_first());
    if !seq_eq(name.as_slice(), asset.as_slice()) || hash.len() != 64 {
        return None;
    }
    let mut k: usize = 0;
    assert(line_digest(line@, asset@) == (if (forall|j: int|
        0 <= j < hash@.len() ==> is_ascii_hex(#[trigger] hash@[j])) {
        Some(lower_seq(hash@))
    } else {
        None
    }));
    while k < hash.len()
        invariant
            line_digest(line@, asset@) == (if (forall|j: int|
                0 <= j < hash@.len() ==> is_ascii_hex(#[trigger] hash@[j])) {
                Some(lower_seq(hash@))
            } else {
                None
            }),
            k <= hash@.len(),
            forall|j: int| 0 <= j < k ==> is_ascii_hex(#[trigger] hash@[j]),
        decreases hash.len() - k,
    {
        let c = hash[k];
        if !(('0' <= c && c <= '9') || ('a' <= c && c <= 'f') || ('A' <= c && c <= 'F')) {
            assert(!is_ascii_hex(hash@[k as int]));
            return None;
        }
        k = k + 1;
    }
    Some(lower_vec(hash.as_slice()))
}

/// The digest `sums` records for `asset`. Accepts the text (`hash  name`)
/// and binary (`hash *name`) forms of `sha256sum`.
pub fn expected_digest(sums: &str, asset: &str) -> (r: Option<String>)
    ensures
        match r {
            Some(d) => digest_in(lines_of(sums@), asset@) == Some(d@),
            None => digest_in(lines_of(sums@), asset@) is None,
        },
{
    let parts = split_char(chars_of(sums).as_slice(), '\n');
    let ghost ls = lines_of(sums@);
    let n = if parts.len() > 0 && parts[parts.len() - 1].len() == 0 {
        parts.len() - 1
    } else {
        parts.len()
    };
    proof {
        assert(ls =~= seqs(parts@).subrange(0, n as int));
    }
    let a = chars_of(asset);
    let mut i: usize = 0;
    assert(ls.subrange(0, ls.len() as int) =~= ls);
    while i < n
        invariant
            i <= n,
            n <= parts@.len(),
            ls == seqs(parts@).subrange(0, n as int),
            ls == lines_of(sums@),
            a@ == asset@,
            digest_in(ls, asset@) == digest_in(ls.subrange(i as int, ls.len() as int), asset@),
        decreases n - i,
    {
        let ghost rest = ls.subrange(i as int, ls.len() as int);
        assert(rest.drop_first() =~= ls.subrange(i + 1, ls.len() as int));
        assert(rest[0] == parts@[i as int]@);
        match line_digest_exec(&parts[i], &a) {
            Some(d) => {
                assert(line_digest(rest[0], asset@) == Some(d@));
                assert(digest_in(rest, asset@) == Some(d@));
                return Some(string_of(d.as_slice()));
            },
            None => {},
        }
        i = i + 1;
    }
    None
}

/// The components of an entry name: its pieces between `/` (a `\` counting
/// as `/`), empty ones dropped.
pub open spec fn entry_pieces(name: Seq<char>) -> Seq<Seq<char>> {
    split_on(replace_all(name, seq!['\\'], seq!['/']), '/')
}

/// Relative, with no `..`, root or drive prefix.
pub open spec fn safe_entry(name: Seq<char>) -> bool {
    &&& name.len() > 0
    &&& name[0] != '/'
    &&& name[0] != '\\'
    &&& !has_char(name, ':')
    &&& forall|i: int| 0 <= i < entry_pieces(name).len() ==> #[trigger] entry_pieces(name)[i] != ".."@
}

/// Whether an entry name is safe: relative, with no `..`, root or drive
/// prefix. Backslashes count as separators.
pub fn is_safe_entry(name: &str) -> (r: bool)
    ensures
        r == safe_entry(name@),
{
    let c = chars_of(name);
    if c.len() == 0 || c[0] == '/' || c[0] == '\\' || has_char_exec(c.as_slice(), ':') {
        return false;
    }
    let from = ['\\'];
    let to = ['/'];
    let normalized = replace_vec(c.as_slice(), &from, &to);
    assert(from@ =~= seq!['\\']);
    assert(to@ =~= seq!['/']);
    let parts = split_char(normalized.as_slice(), '/');
    let dots = chars_of("..");
    let mut i: usize = 0;
    while i < parts.len()
        invariant
            i <= parts@.len(),
            seqs(parts@) == entry_pieces(name@),
            dots@ == ".."@,
            forall|j: int| 0 <= j < i ==> #[trigger] entry_pieces(name@)[j] != ".."@,
        decreases parts.len() - i,
    {
        assert(seqs(parts@)[i as int] == parts@[i as int]@);
        if seq_eq(parts[i].as_slice(), dots.as_slice()) {
            return false;
        }
        i = i + 1;
    }
    true
}

/// The pieces of an entry name that name something: not empty, not `.`.
pub open spec fn named_pieces(parts: Seq<Seq<char>>) -> Seq<Seq<char>>
    decreases parts.len(),
{
    if parts.len() == 0 {
        Seq::empty()
    } else {
        let rest = named_pieces(parts.drop_last());
        if parts.last().len() > 0 && parts.last() != "."@ {
            rest.push(parts.last())
        } else {
            rest
        }
    }
}

/// The binary sits at the top level, or one directory down.
pub open spec fn names_binary_spec(name: Seq<char>, binary: Seq<char>) -> bool {
    let p = named_pieces(entry_pieces(name));
    (p.len() == 1 && p[0] == binary) || (p.len() == 2 && p[1] == binary)
}

/// Whether the entry is the binary: at the top level, or one directory down.
pub fn names_binary(name: &str, binary: &str) -> (r: bool)
    ensures
        r == names_binary_spec(name@, binary@),
{
    let from = ['\\'];
    let to = ['/'];
    let normalized = replace_vec(chars_of(name).as_slice(), &from, &to);
    assert(from@ =~= seq!['\\']);
    assert(to@ =~= seq!['/']);
    let parts = split_char(normalized.as_slice(), '/');
    let ghost ps = seqs(parts@);
    let dot = chars_of(".");
    let mut kept: Vec<Vec<char>> = Vec::new();
    let mut i: usize = 0;
    while i < parts.len()
        invariant
            i <= parts@.len(),
            ps == seqs(parts@),
            ps == entry_pieces(name@),
            dot@ == "."@,
            seqs(kept@) == named_pieces(ps.take(i as int)),
        decreases parts.len() - i,
    {
        proof {
            assert(ps.take(i + 1).drop_last() =~= ps.take(i as int));
            assert(ps.take(i + 1).last() == parts@[i as int]@);
        }
        if parts[i].len() > 0 && !seq_eq(parts[i].as_slice(), dot.as_slice()) {
            let ghost before = seqs(kept@);
            let piece = slice_range(parts[i].as_slice(), 0, parts[i].len());
            assert(piece@ =~= parts@[i as int]@);
            kept.push(piece);
            assert(seqs(kept@) =~= before.push(parts@[i as int]@));
        }
        i = i + 1;
    }
    assert(ps.take(ps.len() as int) =~= ps);
    let b = chars_of(binary);
    if kept.len() == 1 {
        assert(seqs(kept@)[0] == kept@[0]@);
        seq_eq(kept[0].as_slice(), b.as_slice())
    } else if kept.len() == 2 {
        assert(seqs(kept@)[1] == kept@[1]@);
        seq_eq(kept[1].as_slice(), b.as_slice())
    } else {
        false
    }
}

/// The SHA-256 digest of a byte string.
pub uninterp spec fn sha256_of(data: Seq<u8>) -> Seq<u8>;

/// `sha2::Sha256::digest`: the 32-byte SHA-256 digest of `data`, a function
/// of `data` alone.
#[verifier::external_body]
fn sha256(data: &[u8]) -> (r: Vec<u8>)
    ensures
        r@ == sha256_of(data@),
        r@.len() == 32,
{
    sha2::Sha256::digest(data).to_vec()
}

pub open spec fn hex_digit(n: int) -> char {
    if n < 10 {
        ((n + 48) as u32) as char
    } else {
        ((n - 10 + 97) as u32) as char
    }
}

/// Lowercase hex, two digits a byte.
pub open spec fn hex_lower(b: Seq<u8>) -> Seq<char>
    decreases b.len(),
{
    if b.len() == 0 {
        Seq::empty()
    } else {
        hex_lower(b.drop_last()) + seq![hex_digit(b.last() as int / 16), hex_digit(b.last() as int % 16)]
    }
}

fn hex_digit_exec(n: u8) -> (c: char)
    requires
        n < 16,
    ensures
        c == hex_digit(n as int),
{
    if n < 10 {
        (n + 48) as char
    } else {
        (n - 10 + 97) as char
    }
}

/// Lowercase hex of a byte string.
pub fn to_hex(b: &[u8]) -> (out: String)
    ensures
        out@ == hex_lower(b@),
{
    let mut out = String::new();
    let mut i: usize = 0;
    while i < b.len()
        invariant
            i <= b@.len(),
            out@ == hex_lower(b@.take(i as int)),
        decreases b.len() - i,
    {
        proof {
            assert(b@.take(i + 1).drop_last() =~= b@.take(i as int));
        }
        out.push(hex_digit_exec(b[i] / 16));
        out.push(hex_digit_exec(b[i] % 16));
        i = i + 1;
    }
    assert(b@.take(b@.len() as int) =~= b@);
    out
}

/// Lowercase hex SHA-256 of an archive's bytes.
pub fn sha256_hex(data: &[u8]) -> (r: String)
    ensures
        r@ == hex_lower(sha256_of(data@)),
{
    let d = sha256(data);
    to_hex(d.as_slice())
}

/// Check an archive's bytes against the digest `sums` records for `asset`.
pub fn verify_checksum(archive: &[u8], asset: &str, sums: &str) -> (r: Result<(), ArchiveError>)
    ensures
        digest_in(lines_of(sums@), asset@) is None ==> (r matches Err(ArchiveError::NotListed { asset: a })
            && a@ == asset@),
        digest_in(lines_of(sums@), asset@) matches Some(d) ==> (if hex_lower(sha256_of(archive@))
            == d {
            r is Ok
        } else {
            r matches Err(ArchiveError::Mismatch { asset: a, expected, actual }) && a@ == asset@
                && expected@ == d && actual@ == hex_lower(sha256_of(archive@))
        }),
{
    let expected = match expected_digest(sums, asset) {
        Some(d) => d,
        None => {
            return Err(ArchiveError::NotListed { asset: owned(asset) });
        },
    };
    let actual = sha256_hex(archive);
    if actual != expected {
        return Err(ArchiveError::Mismatch { asset: owned(asset), expected, actual });
    }
    Ok(())
}

#[verifier::external_type_specification]
#[verifier::external_body]
pub struct ExMinisignPublicKey(minisign_verify::PublicKey);

#[verifier::external_type_specification]
#[verifier::external_body]
pub struct ExMinisignSignature(minisign_verify::Signature);

#[verifier::external_type_specification]
#[verifier::external_body]
pub struct ExMinisignError(minisign_verify::Error);

/// Whether `minisign_verify::PublicKey::from_base64` accepts a key line.
pub uninterp spec fn minisign_key_line_decodes(line: Seq<char>) -> bool;

/// Whether `minisign_verify::Signature::decode` accepts a signature's text.
pub uninterp spec fn minisign_signature_decodes(text: Seq<char>) -> bool;

/// Whether `minisign_verify::PublicKey::verify`, legacy signatures refused,
/// accepts the bytes under the key read from a base64 key line and the
/// signature read from its text.
pub uninterp spec fn minisign_verifies(key_line: Seq<char>, data: Seq<u8>, signature: Seq<char>) -> bool;

/// A line without the carriage return that ends it, if any.
pub open spec fn strip_cr(l: Seq<char>) -> Seq<char> {
    if l.len() > 0 && l.last() == '\r' {
        l.drop_last()
    } else {
        l
    }
}

/// The lines `str::lines` yields: split at each `\n`, a `\r` just before
/// it dropped, and no empty line after a final `\n`.
pub open spec fn str_lines(s: Seq<char>) -> Seq<Seq<char>> {
    let parts = split_on(s, '\n');
    let n: int = if parts.len() > 0 && parts.last().len() == 0 {
        parts.len() - 1
    } else {
        parts.len() as int
    };
    Seq::new(n as nat, |i: int| if i + 1 < parts.len() { strip_cr(parts[i]) } else { parts[i] })
}

/// `minisign_verify::PublicKey::decode`: it takes the first line as the
/// comment and reads the second with `from_base64`, so it succeeds exactly
/// when there are two lines and the second is a key line `from_base64`
/// accepts.
#[verifier::external_body]
fn public_key_decode(text: &str) -> (r: Result<minisign_verify::PublicKey, minisign_verify::Error>)
    ensures
        r is Ok <==> (str_lines(text@).len() >= 2 && minisign_key_line_decodes(str_lines(text@)[1])),
{
    minisign_verify::PublicKey::decode(text)
}

/// `minisign_verify::PublicKey::from_base64`: whether it succeeds depends on
/// the line alone.
#[verifier::external_body]
fn public_key_from_base64(line: &str) -> (r: Result<minisign_verify::PublicKey, minisign_verify::Error>)
    ensures
        r is Ok <==> minisign_key_line_decodes(line@),
{
    minisign_verify::PublicKey::from_base64(line)
}

/// `minisign_verify::Signature::decode`: whether it succeeds depends on the
/// text alone.
#[verifier::external_body]
fn signature_decode(text: &str) -> (r: Result<minisign_verify::Signature, minisign_verify::Error>)
    ensures
        r is Ok <==> minisign_signature_decodes(text@),
{
    minisign_verify::Signature::decode(text)
}

/// `minisign_verify::PublicKey::verify` with legacy signatures refused, on
/// the key `PublicKey::from_base64` reads from a key line and the signature
/// `Signature::decode` reads from its text (both accepted, by `requires`).
/// `verify` reads only the key's id and bytes, which the key line alone
/// fixes (a `.pub` file's key is its second line read the same way, plus a
/// comment), so its answer depends on the key line, the bytes and the
/// signature's text alone.
#[verifier::external_body]
fn public_key_verify(key_line: &str, data: &[u8], signature: &str) -> (r: Result<
    (),
    minisign_verify::Error,
>)
    requires
        minisign_key_line_decodes(key_line@),
        minisign_signature_decodes(signature@),
    ensures
        r is Ok <==> minisign_verifies(key_line@, data@, signature@),
{
    let key = minisign_verify::PublicKey::from_base64(key_line)?;
    key.verify(data, &minisign_verify::Signature::decode(signature)?, false)
}

/// The `Display` text of a minisign error. Its wording is not stated.
#[verifier::external_body]
fn minisign_error_text(e: &minisign_verify::Error) -> (r: String) {
    e.to_string()
}

/// The base64 line a (trimmed) key is read from: the second line of a
/// `.pub` file when it has more than one line, else the text itself.
pub open spec fn key_line_of(key: Seq<char>) -> Option<Seq<char>> {
    if has_char(key, '\n') {
        if str_lines(key).len() >= 2 {
            Some(str_lines(key)[1])
        } else {
            None
        }
    } else {
        Some(key)
    }
}

/// A key is accepted when the trimmed text parses: as a `.pub` file when it
/// has more than one line, as a bare key line otherwise.
pub open spec fn key_parses(public_key: Seq<char>) -> bool {
    match key_line_of(trim_seq(public_key)) {
        Some(l) => minisign_key_line_decodes(l),
        None => false,
    }
}

/// Whether a signature over the bytes is good: the key parses, the
/// signature decodes, and minisign accepts it under the key.
pub open spec fn signature_good(sums: Seq<u8>, signature: Seq<char>, public_key: Seq<char>) -> bool {
    &&& key_parses(public_key)
    &&& minisign_signature_decodes(signature)
    &&& minisign_verifies(key_line_of(trim_seq(public_key))->0, sums, signature)
}

/// The second of `str::lines`, when there are two.
fn second_line(s: &[char]) -> (r: Option<Vec<char>>)
    ensures
        r is Some <==> str_lines(s@).len() >= 2,
        r matches Some(l) ==> l@ == str_lines(s@)[1],
{
    let parts = split_char(s, '\n');
    let ghost ps = split_on(s@, '\n');
    assert(seqs(parts@) == ps);
    let n = parts.len();
    let eff = if n > 0 && parts[n - 1].len() == 0 {
        n - 1
    } else {
        n
    };
    assert(n > 0 ==> parts@[n - 1]@ == ps[n - 1]);
    if eff < 2 {
        return None;
    }
    let p = &parts[1];
    assert(p@ == ps[1]);
    if 2 < n && p.len() > 0 && p[p.len() - 1] == '\r' {
        let l = slice_range(p.as_slice(), 0, p.len() - 1);
        assert(l@ =~= p@.drop_last());
        Some(l)
    } else {
        Some(p.clone())
    }
}

fn parse_key(public_key: &str) -> (r: Result<minisign_verify::PublicKey, minisign_verify::Error>)
    ensures
        r is Ok <==> key_parses(public_key@),
{
    let key = string_of(trim_vec(chars_of(public_key).as_slice()).as_slice());
    if has_char_exec(chars_of(key.as_str()).as_slice(), '\n') {
        public_key_decode(key.as_str())
    } else {
        public_key_from_base64(key.as_str())
    }
}

/// Validate the public key when the app is built, so a typo fails the app's
/// own tests rather than a user's update.
pub fn check_public_key(public_key: &str) -> (r: Result<(), String>)
    ensures
        r is Ok <==> key_parses(public_key@),
        r matches Err(e) ==> crate::text::is_prefix_of(
            "self-install public key is not a minisign public key: "@,
            e@,
        ),
{
    match parse_key(public_key) {
        Ok(_) => Ok(()),
        Err(e) => {
            let mut m = owned("self-install public key is not a minisign public key: ");
            let ghost head = m@;
            let t = minisign_error_text(&e);
            push_str(&mut m, t.as_str());
            assert(m@.subrange(0, head.len() as int) =~= head);
            Err(m)
        },
    }
}

/// Verify a minisign signature over the bytes of `SHA256SUMS`. Legacy
/// (non-prehashed) signatures are refused.
pub fn verify_signature(sums: &[u8], signature: &str, public_key: &str) -> (r: Result<
    (),
    ArchiveError,
>)
    ensures
        !key_parses(public_key@) ==> r matches Err(ArchiveError::BadPublicKey(_)),
        key_parses(public_key@) && !minisign_signature_decodes(signature@) ==> r matches Err(
            ArchiveError::BadSignature(_),
        ),
        key_parses(public_key@) && minisign_signature_decodes(signature@) && !signature_good(
            sums@,
            signature@,
            public_key@,
        ) ==> r matches Err(ArchiveError::BadSignature(_)),
        r is Ok <==> signature_good(sums@, signature@, public_key@),
{
    if let Err(e) = parse_key(public_key) {
        return Err(ArchiveError::BadPublicKey(minisign_error_text(&e)));
    }
    if let Err(e) = signature_decode(signature) {
        return Err(ArchiveError::BadSignature(minisign_error_text(&e)));
    }
    let key = trim_vec(chars_of(public_key).as_slice());
    let line = if has_char_exec(key.as_slice(), '\n') {
        match second_line(key.as_slice()) {
            Some(l) => string_of(l.as_slice()),
            None => {
                return Err(ArchiveError::BadPublicKey(owned("")));
            },
        }
    } else {
        string_of(key.as_slice())
    };
    match public_key_verify(line.as_str(), sums, signature) {
        Ok(()) => Ok(()),
        Err(e) => Err(ArchiveError::BadSignature(minisign_error_text(&e))),
    }
}

/// The two archive formats a release ships.
#[derive(Debug, Clone, Copy, PartialEq, Eq, Structural)]
pub enum ArchiveFormat {
    TarGz,
    Zip,
}

/// The format an archive's file name names, ignoring case.
pub open spec fn format_of(file_name: Seq<char>) -> Option<ArchiveFormat> {
    let n = unicode_lower(file_name);
    if is_suffix_of(".tar.gz"@, n) || is_suffix_of(".tgz"@, n) {
        Some(ArchiveFormat::TarGz)
    } else if is_suffix_of(".zip"@, n) {
        Some(ArchiveFormat::Zip)
    } else {
        None
    }
}

pub fn archive_format(file_name: &str) -> (r: Option<ArchiveFormat>)
    ensures
        r == format_of(file_name@),
{
    let lower = to_lowercase(file_name);
    let n = chars_of(lower.as_str());
    let tgz = chars_of(".tar.gz");
    let tgz2 = chars_of(".tgz");
    let zip = chars_of(".zip");
    if ends_with(n.as_slice(), tgz.as_slice()) || ends_with(n.as_slice(), tgz2.as_slice()) {
        Some(ArchiveFormat::TarGz)
    } else if ends_with(n.as_slice(), zip.as_slice()) {
        Some(ArchiveFormat::Zip)
    } else {
        None
    }
}

/// One entry of an archive as the extractor sees it.
#[derive(Debug, Clone, PartialEq, Eq)]
pub struct ArchiveEntry {
    /// The entry's name, invalid UTF-8 replaced.
    pub name: String,
    /// Whether it is a regular file.
    pub is_file: bool,
    /// Whether the archive library itself finds the name enclosed in the
    /// extraction directory (always true where it does not judge).
    pub enclosed: bool,
}

pub open spec fn entries_view(v: Seq<ArchiveEntry>) -> Seq<(Seq<char>, bool, bool)> {
    v.map_values(|e: ArchiveEntry| (e.name@, e.is_file, e.enclosed))
}

/// An archive's entries without the per-entry `enclosed` flag: each name
/// and whether it is a regular file.
pub open spec fn names_of(entries: Seq<(Seq<char>, bool, bool)>) -> Seq<(Seq<char>, bool)> {
    entries.map_values(|e: (Seq<char>, bool, bool)| (e.0, e.1))
}

/// Entries with `enclosed` flags attached, one flag per entry.
pub open spec fn with_flags(entries: Seq<(Seq<char>, bool)>, flags: Seq<bool>) -> Seq<(Seq<char>, bool, bool)> {
    Seq::new(entries.len(), |i: int| (entries[i].0, entries[i].1, flags[i]))
}

pub open spec fn listing_view(r: Result<Vec<ArchiveEntry>, String>) -> Result<
    Seq<(Seq<char>, bool)>,
    Seq<char>,
> {
    match r {
        Ok(v) => Ok(names_of(entries_view(v@))),
        Err(e) => Err(e@),
    }
}

pub open spec fn bytes_view(r: Result<Vec<u8>, String>) -> Result<Seq<u8>, Seq<char>> {
    match r {
        Ok(v) => Ok(v@),
        Err(e) => Err(e@),
    }
}

/// The entries `tar` reads from a gzip-compressed archive, in order (each
/// name and whether it is a regular file), or the text of the first error.
pub uninterp spec fn tar_gz_listing(archive: Seq<u8>) -> Result<Seq<(Seq<char>, bool)>, Seq<char>>;

/// The contents of the tar entry at an index, or the text of the error.
pub uninterp spec fn tar_gz_entry_data(archive: Seq<u8>, index: int) -> Result<Seq<u8>, Seq<char>>;

/// The entries `zip` reads from an archive's central directory, in order
/// (each name and whether it is a regular file), or the text of the first
/// error.
pub uninterp spec fn zip_listing(archive: Seq<u8>) -> Result<Seq<(Seq<char>, bool)>, Seq<char>>;

/// The decompressed contents of the zip entry at an index, or the text of
/// the error.
pub uninterp spec fn zip_entry_data(archive: Seq<u8>, index: int) -> Result<Seq<u8>, Seq<char>>;

/// `tar::Archive::entries` over a `flate2::read::GzDecoder` of the bytes:
/// each entry's `path_bytes` (lossily as text) and whether its header's
/// entry type is a regular file. The result depends on the bytes alone.
/// `tar` has no check of its own on names, so every entry is marked
/// enclosed and the library's own check decides.
#[verifier::external_body]
fn list_tar_gz(archive: &[u8]) -> (r: Result<Vec<ArchiveEntry>, String>)
    ensures
        listing_view(r) == tar_gz_listing(archive@),
        r matches Ok(v) ==> forall|i: int| 0 <= i < v@.len() ==> (#[trigger] v@[i]).enclosed,
{
    let mut tar = tar::Archive::new(flate2::read::GzDecoder::new(archive));
    let mut out = Vec::new();
    for entry in tar.entries().map_err(|e| e.to_string())? {
        let entry = entry.map_err(|e| e.to_string())?;
        let name = String::from_utf8_lossy(&entry.path_bytes()).into_owned();
        out.push(ArchiveEntry { name, is_file: entry.header().entry_type().is_file(), enclosed: true });
    }
    Ok(out)
}

/// The contents of the tar entry at `index`, read to the end.
#[verifier::external_body]
fn read_tar_gz_entry(archive: &[u8], index: usize) -> (r: Result<Vec<u8>, String>)
    ensures
        bytes_view(r) == tar_gz_entry_data(archive@, index as int),
{
    let mut tar = tar::Archive::new(flate2::read::GzDecoder::new(archive));
    let mut entries = tar.entries().map_err(|e| e.to_string())?;
    let mut entry = entries.nth(index).ok_or_else(String::new)?.map_err(|e| e.to_string())?;
    let mut data = Vec::new();
    entry.read_to_end(&mut data).map_err(|e| e.to_string())?;
    Ok(data)
}

/// `zip::ZipArchive::by_index_raw` for each index: the entry's `name`,
/// `is_file`, and whether `enclosed_name` finds one. Names and file flags
/// depend on the bytes alone. Nothing is stated of the `enclosed` flags:
/// `enclosed_name` refuses more names on Windows (colons, device names,
/// trailing dots) than elsewhere, so they depend on the platform too.
#[verifier::external_body]
fn list_zip(archive: &[u8]) -> (r: Result<Vec<ArchiveEntry>, String>)
    ensures
        listing_view(r) == zip_listing(archive@),
{
    let mut zip = zip::ZipArchive::new(std::io::Cursor::new(archive)).map_err(|e| e.to_string())?;
    let mut out = Vec::new();
    for i in 0..zip.len() {
        let entry = zip.by_index_raw(i).map_err(|e| e.to_string())?;
        let name = entry.name().map_err(|e| e.to_string())?.into_owned();
        out.push(ArchiveEntry { name, is_file: entry.is_file(), enclosed: entry.enclosed_name().is_some() });
    }
    Ok(out)
}

/// The decompressed contents of the zip entry at `index`.
#[verifier::external_body]
fn read_zip_entry(archive: &[u8], index: usize) -> (r: Result<Vec<u8>, String>)
    ensures
        bytes_view(r) == zip_entry_data(archive@, index as int),
{
    let mut zip = zip::ZipArchive::new(std::io::Cursor::new(archive)).map_err(|e| e.to_string())?;
    let mut entry = zip.by_index(index).map_err(|e| e.to_string())?;
    let mut data = Vec::new();
    entry.read_to_end(&mut data).map_err(|e| e.to_string())?;
    Ok(data)
}

/// Whether an entry may be extracted at all.
pub open spec fn entry_ok(e: (Seq<char>, bool, bool)) -> bool {
    safe_entry(e.0) && e.2
}

/// The first entry that may not be extracted, by index.
pub open spec fn first_unsafe(entries: Seq<(Seq<char>, bool, bool)>) -> int
    decreases entries.len(),
{
    if entries.len() == 0 {
        0
    } else if !entry_ok(entries[0]) {
        0
    } else {
        1 + first_unsafe(entries.drop_first())
    }
}

/// The first regular file that is the binary, by index.
pub open spec fn first_binary(entries: Seq<(Seq<char>, bool, bool)>, binary: Seq<char>) -> int
    decreases entries.len(),
{
    if entries.len() == 0 {
        0
    } else if entries[0].1 && names_binary_spec(entries[0].0, binary) {
        0
    } else {
        1 + first_binary(entries.drop_first(), binary)
    }
}

proof fn lemma_first_unsafe(entries: Seq<(Seq<char>, bool, bool)>)
    ensures
        0 <= first_unsafe(entries) <= entries.len(),
        first_unsafe(entries) < entries.len() ==> !entry_ok(entries[first_unsafe(entries)]),
        forall|j: int| 0 <= j < first_unsafe(entries) ==> entry_ok(#[trigger] entries[j]),
    decreases entries.len(),
{
    if entries.len() > 0 && entry_ok(entries[0]) {
        lemma_first_unsafe(entries.drop_first());
        assert forall|j: int| 0 <= j < first_unsafe(entries) implies entry_ok(#[trigger] entries[j]) by {
            if j > 0 {
                assert(entries[j] == entries.drop_first()[j - 1]);
            }
        }
    }
}

proof fn lemma_first_binary(entries: Seq<(Seq<char>, bool, bool)>, binary: Seq<char>)
    ensures
        0 <= first_binary(entries, binary) <= entries.len(),
        first_binary(entries, binary) < entries.len() ==> entries[first_binary(entries, binary)].1
            && names_binary_spec(entries[first_binary(entries, binary)].0, binary),
        forall|j: int|
            0 <= j < first_binary(entries, binary) ==> !((#[trigger] entries[j]).1 && names_binary_spec(
                entries[j].0,
                binary,
            )),
    decreases entries.len(),
{
    if entries.len() > 0 && !(entries[0].1 && names_binary_spec(entries[0].0, binary)) {
        lemma_first_binary(entries.drop_first(), binary);
        assert forall|j: int| 0 <= j < first_binary(entries, binary) implies !((#[trigger] entries[j]).1
            && names_binary_spec(entries[j].0, binary)) by {
            if j > 0 {
                assert(entries[j] == entries.drop_first()[j - 1]);
            }
        }
    }
}

/// Which entry to extract: refused when any entry may not be extracted
/// (the first such is named), else the first regular file that is the
/// binary, if any.
pub open spec fn choose_spec(entries: Seq<(Seq<char>, bool, bool)>, binary: Seq<char>) -> Result<
    Option<int>,
    Seq<char>,
> {
    if first_unsafe(entries) < entries.len() {
        Err(entries[first_unsafe(entries)].0)
    } else if first_binary(entries, binary) < entries.len() {
        Ok(Some(first_binary(entries, binary)))
    } else {
        Ok(None)
    }
}

pub fn choose_entry(entries: &Vec<ArchiveEntry>, binary: &str) -> (r: Result<Option<usize>, String>)
    ensures
        match r {
            Ok(Some(i)) => choose_spec(entries_view(entries@), binary@) == Ok::<
                Option<int>,
                Seq<char>,
            >(Some(i as int)),
            Ok(None) => choose_spec(entries_view(entries@), binary@) == Ok::<Option<int>, Seq<char>>(
                None,
            ),
            Err(n) => choose_spec(entries_view(entries@), binary@) == Err::<Option<int>, Seq<char>>(
                n@,
            ),
        },
{
    let ghost ev = entries_view(entries@);
    proof {
        lemma_first_unsafe(ev);
        lemma_first_binary(ev, binary@);
    }
    let mut i: usize = 0;
    while i < entries.len()
        invariant
            i <= entries@.len(),
            ev == entries_view(entries@),
            ev.len() == entries@.len(),
            forall|j: int| 0 <= j < i ==> entry_ok(#[trigger] ev[j]),
            0 <= first_unsafe(ev) <= ev.len(),
            first_unsafe(ev) < ev.len() ==> !entry_ok(ev[first_unsafe(ev)]),
            forall|j: int| 0 <= j < first_unsafe(ev) ==> entry_ok(#[trigger] ev[j]),
        decreases entries.len() - i,
    {
        let e = &entries[i];
        assert(ev[i as int] == (e.name@, e.is_file, e.enclosed));
        if !is_safe_entry(e.name.as_str()) || !e.enclosed {
            assert(first_unsafe(ev) == i) by {
                if first_unsafe(ev) < i {
                    assert(entry_ok(ev[first_unsafe(ev)]));
                }
            }
            return Err(e.name.clone());
        }
        i = i + 1;
    }
    assert(first_unsafe(ev) == ev.len()) by {
        if first_unsafe(ev) < ev.len() {
            assert(entry_ok(ev[first_unsafe(ev)]));
        }
    }
    let mut k: usize = 0;
    while k < entries.len()
        invariant
            k <= entries@.len(),
            ev == entries_view(entries@),
            ev.len() == entries@.len(),
            first_unsafe(ev) == ev.len(),
            forall|j: int| 0 <= j < k ==> !((#[trigger] ev[j]).1 && names_binary_spec(ev[j].0, binary@)),
            0 <= first_binary(ev, binary@) <= ev.len(),
            first_binary(ev, binary@) < ev.len() ==> ev[first_binary(ev, binary@)].1
                && names_binary_spec(ev[first_binary(ev, binary@)].0, binary@),
            forall|j: int|
                0 <= j < first_binary(ev, binary@) ==> !((#[trigger] ev[j]).1 && names_binary_spec(
                    ev[j].0,
                    binary@,
                )),
        decreases entries.len() - k,
    {
        let e = &entries[k];
        assert(ev[k as int] == (e.name@, e.is_file, e.enclosed));
        if e.is_file && names_binary(e.name.as_str(), binary) {
            assert(first_binary(ev, binary@) == k) by {
                if first_binary(ev, binary@) < k {
                    let f = first_binary(ev, binary@);
                    assert(ev[f].1 && names_binary_spec(ev[f].0, binary@));
                }
            }
            return Ok(Some(k));
        }
        k = k + 1;
    }
    assert(first_binary(ev, binary@) == ev.len()) by {
        if first_binary(ev, binary@) < ev.len() {
            let f = first_binary(ev, binary@);
            assert(ev[f].1 && names_binary_spec(ev[f].0, binary@));
        }
    }
    Ok(None)
}

/// The listing of an archive of a format.
pub open spec fn listing_of(format: ArchiveFormat, data: Seq<u8>) -> Result<
    Seq<(Seq<char>, bool)>,
    Seq<char>,
> {
    match format {
        ArchiveFormat::TarGz => tar_gz_listing(data),
        ArchiveFormat::Zip => zip_listing(data),
    }
}

/// The contents of an entry of an archive of a format.
pub open spec fn entry_data_of(format: ArchiveFormat, data: Seq<u8>, index: int) -> Result<
    Seq<u8>,
    Seq<char>,
> {
    match format {
        ArchiveFormat::TarGz => tar_gz_entry_data(data, index),
        ArchiveFormat::Zip => zip_entry_data(data, index),
    }
}

/// What extraction gives once the entries (with their `enclosed` flags)
/// are known: refused on an entry that may not be extracted, missing when
/// no regular file is the binary, else the chosen entry's contents.
pub open spec fn extraction_matches(
    r: Result<Vec<u8>, ArchiveError>,
    path: Seq<char>,
    f: ArchiveFormat,
    data: Seq<u8>,
    entries: Seq<(Seq<char>, bool, bool)>,
    binary: Seq<char>,
) -> bool {
    match choose_spec(entries, binary) {
        Err(n) => r matches Err(ArchiveError::UnsafeEntry { archive, entry }) && archive@ == path
            && entry@ == n,
        Ok(None) => r matches Err(ArchiveError::MissingBinary { archive, binary: b }) && archive@
            == path && b@ == binary,
        Ok(Some(i)) => match entry_data_of(f, data, i) {
            Err(m) => r matches Err(ArchiveError::Corrupt { archive, message }) && archive@ == path
                && message@ == m,
            Ok(bytes) => r matches Ok(v) && v@ == bytes,
        },
    }
}

/// What taking the binary out of an archive gives: refused for a name of
/// no known format, or an archive that does not list; else what the
/// entries decide, whatever `enclosed` flags came with them (all set for a
/// tar archive).
pub open spec fn extracted(
    path: Seq<char>,
    file_name: Seq<char>,
    data: Seq<u8>,
    binary: Seq<char>,
    r: Result<Vec<u8>, ArchiveError>,
) -> bool {
    match format_of(file_name) {
        None => r matches Err(ArchiveError::UnknownFormat(p)) && p@ == path,
        Some(f) => match listing_of(f, data) {
            Err(m) => r matches Err(ArchiveError::Corrupt { archive, message }) && archive@ == path
                && message@ == m,
            Ok(es) => exists|flags: Seq<bool>|
                {
                    &&& flags.len() == es.len()
                    &&& (f == ArchiveFormat::TarGz ==> forall|i: int|
                        0 <= i < flags.len() ==> #[trigger] flags[i])
                    &&& extraction_matches(r, path, f, data, with_flags(es, flags), binary)
                },
        },
    }
}

/// Take the binary out of a release archive held in memory. `path` names
/// the archive in errors; `file_name`, its last component, decides the
/// format. Any entry that may not be extracted refuses the whole archive,
/// before anything is read out of it. For a tar archive every entry counts
/// as enclosed; for a zip archive, whatever `enclosed_name` said of each.
pub fn extract_binary(path: &str, file_name: &str, data: &[u8], binary: &str) -> (r: Result<
    Vec<u8>,
    ArchiveError,
>)
    ensures
        extracted(path@, file_name@, data@, binary@, r),
{
    let format = match archive_format(file_name) {
        Some(f) => f,
        None => {
            return Err(ArchiveError::UnknownFormat(owned(path)));
        },
    };
    let listing = match format {
        ArchiveFormat::TarGz => list_tar_gz(data),
        ArchiveFormat::Zip => list_zip(data),
    };
    let entries = match listing {
        Ok(es) => es,
        Err(m) => {
            return Err(ArchiveError::Corrupt { archive: owned(path), message: m });
        },
    };
    let ghost flags = entries@.map_values(|e: ArchiveEntry| e.enclosed);
    let ghost es = names_of(entries_view(entries@));
    proof {
        assert(with_flags(es, flags) =~= entries_view(entries@));
    }
    let res = match choose_entry(&entries, binary) {
        Err(n) => Err(ArchiveError::UnsafeEntry { archive: owned(path), entry: n }),
        Ok(None) => Err(ArchiveError::MissingBinary { archive: owned(path), binary: owned(binary) }),
        Ok(Some(index)) => {
            let read = match format {
                ArchiveFormat::TarGz => read_tar_gz_entry(data, index),
                ArchiveFormat::Zip => read_zip_entry(data, index),
            };
            match read {
                Ok(v) => Ok(v),
                Err(m) => Err(ArchiveError::Corrupt { archive: owned(path), message: m }),
            }
        },
    };
    proof {
        assert(flags.len() == es.len());
        assert(extraction_matches(res, path@, format, data@, with_flags(es, flags), binary@));
    }
    res
}

/// An archive that names any entry that may not be extracted (an absolute
/// path, a `..` component, a drive) is refused, whatever else it holds.
pub proof fn law_an_unsafe_entry_refuses_the_archive(
    entries: Seq<(Seq<char>, bool, bool)>,
    binary: Seq<char>,
    j: int,
)
    requires
        0 <= j < entries.len(),
        !entry_ok(entries[j]),
    ensures
        choose_spec(entries, binary) is Err,
{
    lemma_first_unsafe(entries);
    if first_unsafe(entries) == entries.len() {
        assert(entry_ok(entries[j]));
    }
}

} // verus!
