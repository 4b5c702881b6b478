//! The parts of the OTLP export configuration that are decided from text:
//! the supported protocol and the `OTEL_EXPORTER_OTLP_HEADERS` list.

use crate::text::{
    chars_of, debug_quoted, debug_repr, find_char, first_index_of, insert_sorted, join_strings,
    join_with, lemma_first_index_bounds, lower_seq, lower_vec, owned, push_str, seq_eq, seqs,
    slice_range, sorted_seqs, split_char, split_on, string_of, strings, trim_seq, trim_vec,
};
use vstd::prelude::*;
use vstd::string::StringSliceAdditionalSpecFns;
use vstd::utf8::{decode_utf8, encode_utf8, is_continuation_byte, valid_utf8};

verus! {

/// The only OTLP protocol this crate can export with.
pub open spec fn supported_protocol() -> Seq<char> {
    "http/protobuf"@
}

/// Whether a protocol name is the supported one, ignoring ASCII case.
pub fn protocol_is_supported(protocol: &str) -> (r: bool)
    ensures
        r == (lower_seq(protocol@) == lower_seq(supported_protocol())),
{
    let a = lower_vec(chars_of(protocol).as_slice());
    let b = lower_vec(chars_of("http/protobuf").as_slice());
    seq_eq(a.as_slice(), b.as_slice())
}

pub open spec fn is_hex_byte(b: u8) -> bool {
    (0x30 <= b <= 0x39) || (0x61 <= b <= 0x66) || (0x41 <= b <= 0x46)
}

pub open spec fn hex_val(b: u8) -> int {
    if 0x30 <= b <= 0x39 {
        b - 0x30
    } else if 0x61 <= b <= 0x66 {
        b - 0x61 + 10
    } else {
        b - 0x41 + 10
    }
}

/// The byte two hex digits spell.
pub open spec fn pair_value(b1: u8, b2: u8) -> u8 {
    (hex_val(b1) * 16 + hex_val(b2)) as u8
}

/// A well-formed escape starts the bytes: `%` and two hex digits.
pub open spec fn escape_at(b: Seq<u8>) -> bool {
    b.len() > 2 && b[0] == 0x25 && is_hex_byte(b[1]) && is_hex_byte(b[2])
}

/// `%XX` escapes decoded, everything else passed through byte for byte.
pub open spec fn pct_bytes(b: Seq<u8>) -> Seq<u8>
    decreases b.len(),
{
    if b.len() == 0 {
        Seq::empty()
    } else if escape_at(b) {
        seq![pair_value(b[1], b[2])] + pct_bytes(b.subrange(3, b.len() as int))
    } else {
        seq![b[0]] + pct_bytes(b.drop_first())
    }
}

/// The decoded value; the input itself when the decoded bytes are not UTF-8.
pub open spec fn percent_decoded(s: Seq<char>) -> Seq<char> {
    let d = pct_bytes(encode_utf8(s));
    if valid_utf8(d) {
        decode_utf8(d)
    } else {
        s
    }
}

/// `String::from_utf8`: the text the bytes encode when they are valid UTF-8,
/// an error otherwise, as std documents.
#[verifier::external_body]
fn string_from_utf8(bytes: Vec<u8>) -> (r: Option<String>)
    ensures
        r is Some <==> valid_utf8(bytes@),
        r matches Some(s) ==> s@ == decode_utf8(bytes@),
{
    String::from_utf8(bytes).ok()
}

fn is_hex_exec(b: u8) -> (r: bool)
    ensures
        r == is_hex_byte(b),
{
    (0x30 <= b && b <= 0x39) || (0x61 <= b && b <= 0x66) || (0x41 <= b && b <= 0x46)
}

fn hex_exec(b: u8) -> (r: u8)
    requires
        is_hex_byte(b),
    ensures
        r as int == hex_val(b),
        r < 16,
{
    if 0x30 <= b && b <= 0x39 {
        b - 0x30
    } else if 0x61 <= b && b <= 0x66 {
        b - 0x61 + 10
    } else {
        b - 0x41 + 10
    }
}

/// Decode `%XX` escapes in an OTLP header value. A malformed escape (a `%`
/// not followed by two hex digits) is left verbatim, and a result that is
/// not UTF-8 gives the value back unchanged.
pub fn percent_decode(value: &str) -> (out: String)
    ensures
        out@ == percent_decoded(value@),
{
    let bytes = value.as_bytes();
    let ghost b = bytes@;
    let mut out: Vec<u8> = Vec::new();
    let mut i: usize = 0;
    assert(b.subrange(0, b.len() as int) =~= b);
    while i < bytes.len()
        invariant
            i <= b.len(),
            b == bytes@,
            out@ + pct_bytes(b.subrange(i as int, b.len() as int)) == pct_bytes(b),
        decreases b.len() - i,
    {
        let ghost rest = b.subrange(i as int, b.len() as int);
        if bytes[i] == 0x25 && bytes.len() - i > 2 {
            let b1 = bytes[i + 1];
            let b2 = bytes[i + 2];
            if is_hex_exec(b1) && is_hex_exec(b2) {
                let v: u8 = hex_exec(b1) * 16 + hex_exec(b2);
                proof {
                    assert(rest[0] == bytes@[i as int] && rest[1] == b1 && rest[2] == b2);
                    assert(escape_at(rest));
                    assert(rest.subrange(3, rest.len() as int) =~= b.subrange(i + 3, b.len() as int));
                }
                out.push(v);
                proof {
                    assert(v == pair_value(b1, b2));
                }
                i = i + 3;
                continue;
            }
            proof {
                assert(!escape_at(rest));
            }
        }
        proof {
            assert(rest.drop_first() =~= b.subrange(i + 1, b.len() as int));
            if rest.len() > 2 && rest[0] == 0x25 {
                assert(rest[1] == bytes@[i + 1] && rest[2] == bytes@[i + 2]);
            }
        }
        out.push(bytes[i]);
        i = i + 1;
    }
    proof {
        assert(b.subrange(i as int, b.len() as int) =~= Seq::<u8>::empty());
        assert(out@ =~= pct_bytes(b));
    }
    match string_from_utf8(out) {
        Some(s) => s,
        None => owned(value),
    }
}

/// `s` split at the first `c`, when it holds one.
pub open spec fn split_once_spec(s: Seq<char>, c: char) -> Option<(Seq<char>, Seq<char>)> {
    let i = first_index_of(s, c);
    if i >= s.len() {
        None
    } else {
        Some((s.subrange(0, i), s.subrange(i + 1, s.len() as int)))
    }
}

/// One `key=value` entry: split at the first `=`, key and value trimmed, the
/// value percent-decoded; no entry without `=` or with an empty key.
pub open spec fn header_entry(piece: Seq<char>) -> Option<(Seq<char>, Seq<char>)> {
    match split_once_spec(piece, '=') {
        None => None,
        Some((k, v)) => if trim_seq(k).len() == 0 {
            None
        } else {
            Some((trim_seq(k), percent_decoded(trim_seq(v))))
        },
    }
}

/// The index of the entry with key `k`; the length when there is none.
pub open spec fn key_index(m: Seq<(Seq<char>, Seq<char>)>, k: Seq<char>) -> int
    decreases m.len(),
{
    if m.len() == 0 {
        0
    } else if m[0].0 == k {
        0
    } else {
        1 + key_index(m.drop_first(), k)
    }
}

pub proof fn lemma_key_index(m: Seq<(Seq<char>, Seq<char>)>, k: Seq<char>)
    ensures
        0 <= key_index(m, k) <= m.len(),
        key_index(m, k) < m.len() ==> m[key_index(m, k)].0 == k,
        forall|j: int| 0 <= j < key_index(m, k) ==> m[j].0 != k,
    decreases m.len(),
{
    if m.len() > 0 && m[0].0 != k {
        lemma_key_index(m.drop_first(), k);
        assert forall|j: int| 0 <= j < key_index(m, k) implies m[j].0 != k by {
            if j > 0 {
                assert(m[j] == m.drop_first()[j - 1]);
            }
        }
    }
}

/// A later value for a key replaces the earlier one in place.
pub open spec fn headers_insert(m: Seq<(Seq<char>, Seq<char>)>, k: Seq<char>, v: Seq<char>) -> Seq<
    (Seq<char>, Seq<char>),
> {
    let i = key_index(m, k);
    if i < m.len() {
        m.update(i, (k, v))
    } else {
        m.push((k, v))
    }
}

/// The headers a list of entries gives, later entries winning.
pub open spec fn headers_from(pieces: Seq<Seq<char>>) -> Seq<(Seq<char>, Seq<char>)>
    decreases pieces.len(),
{
    if pieces.len() == 0 {
        Seq::empty()
    } else {
        let m = headers_from(pieces.drop_last());
        match header_entry(pieces.last()) {
            Some((k, v)) => headers_insert(m, k, v),
            None => m,
        }
    }
}

pub open spec fn keys_unique(m: Seq<(Seq<char>, Seq<char>)>) -> bool {
    forall|i: int, j: int| 0 <= i < j < m.len() ==> m[i].0 != m[j].0
}

/// Header names and values, one value per name.
#[derive(Debug)]
pub struct Headers {
    entries: Vec<(String, String)>,
}

pub open spec fn pairs_view(v: Seq<(String, String)>) -> Seq<(Seq<char>, Seq<char>)> {
    v.map_values(|p: (String, String)| (p.0@, p.1@))
}

impl View for Headers {
    type V = Seq<(Seq<char>, Seq<char>)>;

    closed spec fn view(&self) -> Seq<(Seq<char>, Seq<char>)> {
        pairs_view(self.entries@)
    }
}

impl Headers {
    #[verifier::type_invariant]
    closed spec fn wf(self) -> bool {
        keys_unique(pairs_view(self.entries@))
    }

    pub fn new() -> (h: Self)
        ensures
            h@ == Seq::<(Seq<char>, Seq<char>)>::empty(),
    {
        let h = Headers { entries: Vec::new() };
        assert(pairs_view(h.entries@) =~= Seq::<(Seq<char>, Seq<char>)>::empty());
        h
    }

    fn position(&self, k: &str) -> (i: usize)
        ensures
            i as int == key_index(self@, k@),
    {
        let mut i: usize = 0;
        proof {
            lemma_key_index(self@, k@);
        }
        while i < self.entries.len()
            invariant
                i <= self.entries@.len(),
                self@ == pairs_view(self.entries@),
                forall|j: int| 0 <= j < i ==> self@[j].0 != k@,
                0 <= key_index(self@, k@) <= self@.len(),
                key_index(self@, k@) < self@.len() ==> self@[key_index(self@, k@)].0 == k@,
                forall|j: int| 0 <= j < key_index(self@, k@) ==> self@[j].0 != k@,
            decreases self.entries.len() - i,
        {
            if crate::text::str_eq(self.entries[i].0.as_str(), k) {
                assert(self@[i as int].0 == k@);
                return i;
            }
            i = i + 1;
        }
        i
    }

    /// Set `k` to `v`, replacing an earlier value.
    pub fn insert(&mut self, k: String, v: String)
        ensures
            final(self)@ == headers_insert(old(self)@, k@, v@),
    {
        proof {
            use_type_invariant(&*self);
            lemma_key_index(self@, k@);
        }
        let i = self.position(k.as_str());
        let ghost m = self@;
        let mut entries = Vec::new();
        std::mem::swap(&mut entries, &mut self.entries);
        if i < entries.len() {
            entries.set(i, (k, v));
        } else {
            entries.push((k, v));
        }
        proof {
            let m2 = pairs_view(entries@);
            assert(m2 =~= headers_insert(m, k@, v@));
            assert forall|a: int, b: int| 0 <= a < b < m2.len() implies m2[a].0 != m2[b].0 by {
                if i < m.len() {
                    if a != i && b != i {
                        assert(m2[a] == m[a] && m2[b] == m[b]);
                    } else if a == i {
                        assert(m2[b] == m[b]);
                    } else {
                        assert(m2[a] == m[a]);
                    }
                } else if b == m.len() {
                    assert(m2[a] == m[a]);
                } else {
                    assert(m2[a] == m[a] && m2[b] == m[b]);
                }
            }
        }
        self.entries = entries;
    }

    /// The value for `k`.
    pub fn get(&self, k: &str) -> (r: Option<&String>)
        ensures
            match r {
                Some(v) => key_index(self@, k@) < self@.len() && self@[key_index(self@, k@)].1
                    == v@,
                None => key_index(self@, k@) == self@.len(),
            },
    {
        proof {
            lemma_key_index(self@, k@);
        }
        let i = self.position(k);
        if i < self.entries.len() {
            Some(&self.entries[i].1)
        } else {
            None
        }
    }

    pub fn contains_key(&self, k: &str) -> (r: bool)
        ensures
            r == (key_index(self@, k@) < self@.len()),
    {
        self.get(k).is_some()
    }

    /// The number of distinct names.
    pub fn len(&self) -> (n: usize)
        ensures
            n == self@.len(),
            keys_unique(self@),
    {
        proof {
            use_type_invariant(self);
        }
        self.entries.len()
    }

    /// The entries, one per name.
    pub fn entries(&self) -> (out: &[(String, String)])
        ensures
            pairs_view(out@) == self@,
            keys_unique(self@),
    {
        proof {
            use_type_invariant(self);
        }
        self.entries.as_slice()
    }
}

/// Parse the `key=value,key2=value2` form of `OTEL_EXPORTER_OTLP_HEADERS`.
///
/// Splits each pair on the first `=` only, because base64 credentials end in
/// `=` padding. Entries without a `=`, or with an empty key, are skipped.
pub fn parse_headers(raw: &str) -> (h: Headers)
    ensures
        h@ == headers_from(split_on(raw@, ',')),
{
    let chars = chars_of(raw);
    let pieces = split_char(chars.as_slice(), ',');
    let ghost ps = split_on(raw@, ',');
    let mut h = Headers::new();
    let mut i: usize = 0;
    while i < pieces.len()
        invariant
            i <= pieces@.len(),
            seqs(pieces@) == ps,
            ps == split_on(raw@, ','),
            h@ == headers_from(ps.take(i as int)),
        decreases pieces.len() - i,
    {
        proof {
            assert(ps.take(i + 1).drop_last() =~= ps.take(i as int));
            assert(ps.take(i + 1).last() == ps[i as int]);
            assert(seqs(pieces@)[i as int] == pieces@[i as int]@);
        }
        let piece = &pieces[i];
        let eq = find_char(piece.as_slice(), '=');
        proof {
            lemma_first_index_bounds(piece@, '=');
        }
        if eq < piece.len() {
            let k = trim_vec(slice_range(piece.as_slice(), 0, eq).as_slice());
            if k.len() > 0 {
                let v = trim_vec(slice_range(piece.as_slice(), eq + 1, piece.len()).as_slice());
                let vs = string_of(v.as_slice());
                proof {
                    let _ = split_on(raw@, ',')[i as int];
                }
                let decoded = percent_decode(vs.as_str());
                h.insert(string_of(k.as_slice()), decoded);
            }
        }
        i = i + 1;
    }
    proof {
        assert(ps.take(ps.len() as int) =~= ps);
    }
    h
}

/// The header names of a header list, in its order.
pub open spec fn header_names(m: Seq<(Seq<char>, Seq<char>)>) -> Seq<Seq<char>> {
    m.map_values(|p: (Seq<char>, Seq<char>)| p.0)
}

/// Each text as `str`'s `Debug` writes it.
pub open spec fn debug_reprs(s: Seq<Seq<char>>) -> Seq<Seq<char>> {
    s.map_values(|x: Seq<char>| debug_repr(x))
}

/// A list of names as a slice's `Debug` writes it, then the redaction note.
pub open spec fn redacted_text(names: Seq<Seq<char>>) -> Seq<char> {
    "["@ + join_with(debug_reprs(names), ", "@) + "] (values redacted)"@
}

impl Headers {
    /// What a diagnostic print shows of the headers: the names, sorted, and
    /// no value.
    pub fn redacted(&self) -> (r: String)
        ensures
            exists|names: Seq<Seq<char>>|
                #![trigger redacted_text(names)]
                sorted_seqs(names) && names.to_multiset() == header_names(self@).to_multiset()
                    && r@ == redacted_text(names),
    {
        let entries = self.entries();
        let ghost keys = header_names(self@);
        let mut names: Vec<String> = Vec::new();
        let mut i: usize = 0;
        assert(strings(names@).to_multiset() == keys.take(0).to_multiset()) by {
            assert(keys.take(0) =~= Seq::<Seq<char>>::empty());
            assert(strings(names@) =~= Seq::<Seq<char>>::empty());
        }
        while i < entries.len()
            invariant
                i <= entries@.len(),
                pairs_view(entries@) == self@,
                keys == header_names(self@),
                sorted_seqs(strings(names@)),
                strings(names@).to_multiset() == keys.take(i as int).to_multiset(),
            decreases entries.len() - i,
        {
            let name = entries[i].0.clone();
            proof {
                assert(keys.take(i + 1) =~= keys.take(i as int).push(keys[i as int]));
                assert(keys[i as int] == name@);
                broadcast use vstd::seq_lib::to_multiset_build;
            }
            insert_sorted(&mut names, name);
            proof {
                broadcast use vstd::seq_lib::to_multiset_build;
            }
            i = i + 1;
        }
        assert(keys.take(entries@.len() as int) =~= keys);
        let mut quoted: Vec<String> = Vec::new();
        let mut j: usize = 0;
        while j < names.len()
            invariant
                j <= names@.len(),
                strings(quoted@) == debug_reprs(strings(names@)).take(j as int),
            decreases names.len() - j,
        {
            let q = debug_quoted(names[j].as_str());
            let ghost before = strings(quoted@);
            quoted.push(q);
            assert(strings(quoted@) =~= before.push(q@));
            assert(debug_reprs(strings(names@)).take(j + 1) =~= debug_reprs(strings(names@)).take(
                j as int,
            ).push(debug_repr(names@[j as int]@)));
            j = j + 1;
        }
        assert(debug_reprs(strings(names@)).take(names@.len() as int) =~= debug_reprs(strings(names@)));
        let mut r = owned("[");
        let body = join_strings(&quoted, ", ");
        push_str(&mut r, body.as_str());
        push_str(&mut r, "] (values redacted)");
        assert(r@ == redacted_text(strings(names@)));
        r
    }
}

/// `1.0` as IEEE-754 bits: keep every trace.
pub const SAMPLE_ALL: u64 = 0x3ff0_0000_0000_0000u64;

/// Configuration for the OTLP export pipeline. The SDK is only started when
/// `is_active` says so.
pub struct TelemetryConfig {
    /// Master switch.
    pub enabled: bool,
    /// OTLP collector base URL; export is a no-op until it is set.
    pub endpoint: Option<String>,
    /// Overrides the `service.name` resource attribute.
    pub service_name: Option<String>,
    /// Overrides the `service.version` resource attribute.
    pub service_version: Option<String>,
    /// Headers sent with every OTLP request. These are credentials: a
    /// diagnostic print shows their names only (`Headers::redacted`).
    pub headers: Headers,
    /// OTLP protocol; only the supported one is accepted.
    pub protocol: String,
    /// Head-sampling ratio in `[0.0, 1.0]`, as its IEEE-754 bits.
    pub sample_ratio: u64,
    /// Whether trace spans are exported.
    pub traces_enabled: bool,
    /// Whether metrics are exported.
    pub metrics_enabled: bool,
    /// Reserved: there is no logs pipeline yet.
    pub logs_enabled: bool,
    /// Reserved: argument values are not captured yet.
    pub record_arg_values: bool,
    /// Reserved: allowlist for `record_arg_values`.
    pub arg_value_allowlist: Vec<String>,
}

impl Default for TelemetryConfig {
    fn default() -> (c: Self)
        ensures
            c.enabled,
            c.endpoint is None,
            c.service_name is None,
            c.service_version is None,
            c.headers@ == Seq::<(Seq<char>, Seq<char>)>::empty(),
            c.protocol@ == supported_protocol(),
            c.sample_ratio == SAMPLE_ALL,
            c.traces_enabled,
            c.metrics_enabled,
            c.logs_enabled,
            !c.record_arg_values,
            c.arg_value_allowlist@ == Seq::<String>::empty(),
    {
        TelemetryConfig {
            enabled: true,
            endpoint: None,
            service_name: None,
            service_version: None,
            headers: Headers::new(),
            protocol: owned("http/protobuf"),
            sample_ratio: SAMPLE_ALL,
            traces_enabled: true,
            metrics_enabled: true,
            logs_enabled: true,
            record_arg_values: false,
            arg_value_allowlist: Vec::new(),
        }
    }
}

/// The `OTEL_*` variables a config is read from, each as found in the
/// environment (`None` when unset). The sampler argument is given as the
/// bits of the ratio it parses to, `None` when it does not parse.
pub struct OtelVars {
    pub endpoint: Option<String>,
    pub service_name: Option<String>,
    pub protocol: Option<String>,
    pub headers: Option<String>,
    pub sample_ratio: Option<u64>,
}

/// A variable that is set and not empty.
pub open spec fn nonempty(v: Option<String>) -> Option<Seq<char>> {
    match v {
        Some(s) => if s@.len() > 0 {
            Some(s@)
        } else {
            None
        },
        None => None,
    }
}

fn take_nonempty(v: Option<String>) -> (r: Option<String>)
    ensures
        match r {
            Some(s) => nonempty(v) == Some(s@),
            None => nonempty(v) is None,
        },
{
    match v {
        Some(s) => if s.unicode_len() > 0 {
            Some(s)
        } else {
            None
        },
        None => None,
    }
}

impl TelemetryConfig {
    /// A config from the standard `OTEL_*` variables: a set, non-empty
    /// variable replaces the default; the sampler argument does when it
    /// parses.
    pub fn from_env(vars: OtelVars) -> (c: Self)
        ensures
            c.enabled && c.traces_enabled && c.metrics_enabled && c.logs_enabled,
            !c.record_arg_values && c.arg_value_allowlist@.len() == 0,
            c.service_version is None,
            match nonempty(vars.endpoint) {
                Some(e) => c.endpoint matches Some(x) && x@ == e,
                None => c.endpoint is None,
            },
            match nonempty(vars.service_name) {
                Some(e) => c.service_name matches Some(x) && x@ == e,
                None => c.service_name is None,
            },
            c.protocol@ == match nonempty(vars.protocol) {
                Some(p) => p,
                None => supported_protocol(),
            },
            c.headers@ == match nonempty(vars.headers) {
                Some(h) => headers_from(split_on(h, ',')),
                None => Seq::empty(),
            },
            c.sample_ratio == match vars.sample_ratio {
                Some(r) => r,
                None => SAMPLE_ALL,
            },
    {
        let mut c = TelemetryConfig::default();
        c.endpoint = take_nonempty(vars.endpoint);
        c.service_name = take_nonempty(vars.service_name);
        if let Some(p) = take_nonempty(vars.protocol) {
            c.protocol = p;
        }
        if let Some(h) = take_nonempty(vars.headers) {
            c.headers = parse_headers(h.as_str());
        }
        if let Some(r) = vars.sample_ratio {
            c.sample_ratio = r;
        }
        c
    }

    /// Whether `protocol` is the one this crate can export with, ignoring
    /// ASCII case.
    pub fn protocol_is_supported(&self) -> (r: bool)
        ensures
            r == (lower_seq(self.protocol@) == lower_seq(supported_protocol())),
    {
        protocol_is_supported(self.protocol.as_str())
    }

    /// Whether the SDK should be started: enabled, an endpoint set, and
    /// `OTEL_SDK_DISABLED` (given as found) not `true`.
    pub fn is_active(&self, sdk_disabled: Option<&str>) -> (r: bool)
        ensures
            r == (self.enabled && self.endpoint is Some && !(sdk_disabled matches Some(v)
                && v@ == "true"@)),
    {
        if !self.enabled {
            return false;
        }
        if self.endpoint.is_none() {
            return false;
        }
        match sdk_disabled {
            Some(v) => !crate::text::str_eq(v, "true"),
            None => true,
        }
    }
}

} // verus!
