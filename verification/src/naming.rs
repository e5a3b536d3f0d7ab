//! Naming: kebab-case chart names, snake_case value keys, artifact file
//! names, and normalisation of resource names to DNS-1123 labels.

use vstd::prelude::*;

use crate::ir::ArtifactKind;
use crate::text::push_char;

verus! {

/// kebab-case of a name: every `_` becomes `-`.
pub open spec fn kebab(s: Seq<char>) -> Seq<char> {
    s.map_values(|c: char| if c == '_' { '-' } else { c })
}

/// snake_case of a name: every `-` becomes `_`.
pub open spec fn snake(s: Seq<char>) -> Seq<char> {
    s.map_values(|c: char| if c == '-' { '_' } else { c })
}

/// `iac_forge::to_kebab_case`, which replaces every `_` by `-`
/// (`name.replace('_', "-")` in the crate's source).
#[verifier::external_body]
pub(crate) fn to_kebab_case(name: &str) -> (res: String)
    ensures
        res@ == kebab(name@),
{
    iac_forge::to_kebab_case(name)
}

/// `iac_forge::to_snake_case`, which replaces every `-` by `_`
/// (`name.replace('-', "_")` in the crate's source).
#[verifier::external_body]
pub(crate) fn to_snake_case(name: &str) -> (res: String)
    ensures
        res@ == snake(name@),
{
    iac_forge::to_snake_case(name)
}

/// Maximum length of a DNS-1123 label (RFC 1123).
pub const DNS_1123_MAX_LEN: usize = 63;

/// ASCII lowercase of one character.
pub open spec fn ascii_lower(c: char) -> char {
    if 'A' <= c && c <= 'Z' {
        ((c as u8) + 32) as char
    } else {
        c
    }
}

/// A character allowed in a DNS-1123 label: `[a-z0-9-]`.
pub open spec fn is_dns_char(c: char) -> bool {
    ('a' <= c && c <= 'z') || ('0' <= c && c <= '9') || c == '-'
}

/// The characters of `s` that are allowed in a label, in order.
pub open spec fn keep_dns_chars(s: Seq<char>) -> Seq<char>
    decreases s.len(),
{
    if s.len() == 0 {
        Seq::empty()
    } else if is_dns_char(s.last()) {
        keep_dns_chars(s.drop_last()).push(s.last())
    } else {
        keep_dns_chars(s.drop_last())
    }
}

/// `s` without its leading hyphens.
pub open spec fn trim_start_hyphens(s: Seq<char>) -> Seq<char>
    decreases s.len(),
{
    if s.len() > 0 && s[0] == '-' {
        trim_start_hyphens(s.drop_first())
    } else {
        s
    }
}

/// `s` without its trailing hyphens.
pub open spec fn trim_end_hyphens(s: Seq<char>) -> Seq<char>
    decreases s.len(),
{
    if s.len() > 0 && s.last() == '-' {
        trim_end_hyphens(s.drop_last())
    } else {
        s
    }
}

/// The label a raw name normalises to before truncation: kebab-cased,
/// lowercased, stripped of characters outside `[a-z0-9-]` and of leading and
/// trailing hyphens.
pub open spec fn dns1123_label(raw: Seq<char>) -> Seq<char> {
    trim_end_hyphens(trim_start_hyphens(keep_dns_chars(kebab(raw).map_values(|c: char| ascii_lower(c)))))
}

/// A valid DNS-1123 label: 1 to 63 characters from `[a-z0-9-]`, neither
/// starting nor ending with a hyphen.
pub open spec fn is_dns1123_label(s: Seq<char>) -> bool {
    &&& 0 < s.len() <= 63
    &&& forall|i: int| 0 <= i < s.len() ==> is_dns_char(#[trigger] s[i])
    &&& s[0] != '-'
    &&& s.last() != '-'
}

/// The outcome of DNS-1123 normalisation.
#[derive(Debug, Clone, PartialEq, Eq)]
pub enum Dns1123Result {
    /// The normalised name fits as-is.
    Valid(String),
    /// The normalised name was cut to 63 characters.
    Truncated(String),
}

impl Dns1123Result {
    /// The validated (possibly truncated) name.
    pub fn name(&self) -> (res: &str)
        ensures
            match self {
                Dns1123Result::Valid(n) => res@ == n@,
                Dns1123Result::Truncated(n) => res@ == n@,
            },
    {
        match self {
            Dns1123Result::Valid(n) => n.as_str(),
            Dns1123Result::Truncated(n) => n.as_str(),
        }
    }
}

/// The error message for a name that normalises to nothing.
pub open spec fn empty_label_message(raw: Seq<char>) -> Seq<char> {
    "resource name '"@ + raw + "' produces an empty DNS-1123 label after normalisation"@
}

proof fn lemma_keep_step(s: Seq<char>, i: int)
    requires
        0 <= i < s.len(),
    ensures
        keep_dns_chars(s.take(i + 1)) == if is_dns_char(s[i]) {
            keep_dns_chars(s.take(i)).push(s[i])
        } else {
            keep_dns_chars(s.take(i))
        },
{
    assert(s.take(i + 1).drop_last() =~= s.take(i));
}

proof fn lemma_keep_all_dns(s: Seq<char>)
    ensures
        forall|i: int| 0 <= i < keep_dns_chars(s).len() ==> is_dns_char(#[trigger] keep_dns_chars(s)[i]),
    decreases s.len(),
{
    if s.len() > 0 {
        lemma_keep_all_dns(s.drop_last());
        let k = keep_dns_chars(s);
        let k0 = keep_dns_chars(s.drop_last());
        assert forall|i: int| 0 <= i < k.len() implies is_dns_char(#[trigger] k[i]) by {
            if i < k0.len() {
                assert(k[i] == k0[i]);
            }
        }
    }
}

proof fn lemma_trim_start_suffix(s: Seq<char>)
    ensures
        exists|k: int| 0 <= k <= s.len() && trim_start_hyphens(s) == #[trigger] s.skip(k),
        trim_start_hyphens(s).len() > 0 ==> trim_start_hyphens(s)[0] != '-',
    decreases s.len(),
{
    if s.len() > 0 && s[0] == '-' {
        lemma_trim_start_suffix(s.drop_first());
        let k = choose|k: int| 0 <= k <= s.drop_first().len() && trim_start_hyphens(s.drop_first()) == #[trigger] s.drop_first().skip(k);
        assert(s.drop_first().skip(k) =~= s.skip(k + 1));
    } else {
        assert(s.skip(0) =~= s);
    }
}

proof fn lemma_trim_end_prefix(s: Seq<char>)
    ensures
        exists|k: int| 0 <= k <= s.len() && trim_end_hyphens(s) == #[trigger] s.take(k),
        trim_end_hyphens(s).len() > 0 ==> trim_end_hyphens(s).last() != '-',
        s.len() > 0 && s[0] != '-' ==> trim_end_hyphens(s).len() > 0,
    decreases s.len(),
{
    if s.len() > 0 && s.last() == '-' {
        lemma_trim_end_prefix(s.drop_last());
        let k = choose|k: int| 0 <= k <= s.drop_last().len() && trim_end_hyphens(s.drop_last()) == #[trigger] s.drop_last().take(k);
        assert(s.drop_last().take(k) =~= s.take(k));
        if s.len() > 0 && s[0] != '-' {
            assert(s.len() > 1);
            assert(s.drop_last()[0] == s[0]);
        }
    } else {
        assert(s.take(s.len() as int) =~= s);
    }
}

/// What normalisation yields: characters from `[a-z0-9-]`, no hyphen at
/// either end.
proof fn lemma_label_shape(raw: Seq<char>)
    ensures
        forall|i: int| 0 <= i < dns1123_label(raw).len() ==> is_dns_char(#[trigger] dns1123_label(raw)[i]),
        dns1123_label(raw).len() > 0 ==> dns1123_label(raw)[0] != '-' && dns1123_label(raw).last() != '-',
{
    let kept = keep_dns_chars(kebab(raw).map_values(|c: char| ascii_lower(c)));
    lemma_keep_all_dns(kebab(raw).map_values(|c: char| ascii_lower(c)));
    lemma_trim_start_suffix(kept);
    let a = trim_start_hyphens(kept);
    let k1 = choose|k: int| 0 <= k <= kept.len() && a == #[trigger] kept.skip(k);
    lemma_trim_end_prefix(a);
    let t = trim_end_hyphens(a);
    let k2 = choose|k: int| 0 <= k <= a.len() && t == #[trigger] a.take(k);
    assert forall|i: int| 0 <= i < t.len() implies is_dns_char(#[trigger] t[i]) by {
        assert(t[i] == kept[k1 + i]);
    }
    if t.len() > 0 {
        assert(t[0] == a[0]);
    }
}

proof fn lemma_keep_identity(s: Seq<char>)
    requires
        forall|i: int| 0 <= i < s.len() ==> is_dns_char(#[trigger] s[i]),
    ensures
        keep_dns_chars(s) == s,
    decreases s.len(),
{
    if s.len() > 0 {
        lemma_keep_identity(s.drop_last());
        assert(s.drop_last().push(s.last()) =~= s);
    }
}

/// Normalisation leaves a valid DNS-1123 label unchanged: the label of a
/// valid label is itself.
pub proof fn dns1123_normalisation_fixes_labels(s: Seq<char>)
    requires
        is_dns1123_label(s),
    ensures
        dns1123_label(s) == s,
{
    let lowered = kebab(s).map_values(|c: char| ascii_lower(c));
    assert(lowered =~= s);
    lemma_keep_identity(s);
}

/// Normalises a resource name to a DNS-1123 label: kebab-case, ASCII
/// lowercase, only `[a-z0-9-]` kept, hyphens stripped at both ends, and cut to
/// 63 characters (stripping hyphens the cut leaves at the end). Fails when
/// nothing is left.
pub fn validate_dns1123(raw: &str) -> (res: Result<Dns1123Result, String>)
    ensures
        res is Err <==> dns1123_label(raw@).len() == 0,
        match res {
            Ok(Dns1123Result::Valid(n)) => dns1123_label(raw@).len() <= 63 && n@ == dns1123_label(raw@),
            Ok(Dns1123Result::Truncated(n)) => dns1123_label(raw@).len() > 63 && n@ == trim_end_hyphens(
                dns1123_label(raw@).take(63),
            ),
            Err(msg) => msg@ == empty_label_message(raw@),
        },
        res matches Ok(r) ==> is_dns1123_label(
            match r {
                Dns1123Result::Valid(n) => n@,
                Dns1123Result::Truncated(n) => n@,
            },
        ),
{
    let kebab_name = to_kebab_case(raw);
    let ghost lowered = kebab(raw@).map_values(|c: char| ascii_lower(c));
    let n = kebab_name.as_str().unicode_len();
    // Lowercase and keep only label characters.
    let mut cleaned: Vec<char> = Vec::new();
    let mut i: usize = 0;
    while i < n
        invariant
            n == kebab_name@.len(),
            kebab_name@ == kebab(raw@),
            lowered == kebab(raw@).map_values(|c: char| ascii_lower(c)),
            0 <= i <= n,
            cleaned@ == keep_dns_chars(lowered.take(i as int)),
        decreases n - i,
    {
        let c = kebab_name.as_str().get_char(i);
        let lc = if 'A' <= c && c <= 'Z' {
            ((c as u8) + 32) as char
        } else {
            c
        };
        assert(lc == lowered[i as int]);
        proof {
            lemma_keep_step(lowered, i as int);
        }
        if ('a' <= lc && lc <= 'z') || ('0' <= lc && lc <= '9') || lc == '-' {
            cleaned.push(lc);
        }
        i = i + 1;
    }
    assert(lowered.take(n as int) =~= lowered);
    let ghost kept = cleaned@;
    // Strip leading hyphens.
    let len = cleaned.len();
    let mut lo: usize = 0;
    assert(kept.skip(0) =~= kept);
    while lo < len && cleaned[lo] == '-'
        invariant
            len == kept.len(),
            cleaned@ == kept,
            0 <= lo <= len,
            trim_start_hyphens(kept) == trim_start_hyphens(kept.skip(lo as int)),
        decreases len - lo,
    {
        assert(kept.skip(lo as int).drop_first() =~= kept.skip(lo + 1));
        lo = lo + 1;
    }
    let ghost started = kept.skip(lo as int);
    assert(trim_start_hyphens(kept) == started);
    // Strip trailing hyphens.
    let mut hi: usize = len;
    assert(started.take(started.len() as int) =~= started);
    while hi > lo && cleaned[hi - 1] == '-'
        invariant
            len == kept.len(),
            cleaned@ == kept,
            0 <= lo <= hi <= len,
            started == kept.skip(lo as int),
            trim_end_hyphens(started) == trim_end_hyphens(started.take(hi - lo)),
        decreases hi,
    {
        assert(started.take(hi - lo).drop_last() =~= started.take(hi - lo - 1));
        hi = hi - 1;
    }
    let ghost label = started.take(hi - lo);
    assert(label.len() > 0 ==> label.last() == cleaned@[hi - 1]);
    assert(trim_end_hyphens(label) == label);
    assert(label == dns1123_label(raw@));
    proof {
        lemma_label_shape(raw@);
    }
    if hi == lo {
        let mut msg = String::from_str("resource name '");
        msg.append(raw);
        msg.append("' produces an empty DNS-1123 label after normalisation");
        return Err(msg);
    }
    let mut end = hi;
    let truncated = hi - lo > DNS_1123_MAX_LEN;
    if truncated {
        end = lo + DNS_1123_MAX_LEN;
        let ghost cut = label.take(63);
        assert(cut.take(63) =~= cut);
        assert(label[0] != '-');
        assert(label[0] == kept[lo as int]);
        while end > lo && cleaned[end - 1] == '-'
            invariant
                cleaned@ == kept,
                kept[lo as int] != '-',
                0 <= lo < end <= lo + 63,
                lo + 63 <= hi <= len,
                len == kept.len(),
                label == kept.skip(lo as int).take(hi - lo),
                cut == label.take(63),
                trim_end_hyphens(cut) == trim_end_hyphens(cut.take(end - lo)),
            decreases end,
        {
            assert(cut.take(end - lo).drop_last() =~= cut.take(end - lo - 1));
            assert(cut.take(end - lo).last() == cleaned@[end - 1]);
            end = end - 1;
        }
        assert(trim_end_hyphens(cut.take(end - lo)) == cut.take(end - lo)) by {
            if end > lo {
                assert(cut.take(end - lo).last() == cleaned@[end - 1]);
            }
        }
    }
    let mut out = String::new();
    let mut j: usize = lo;
    while j < end
        invariant
            cleaned@ == kept,
            lo <= j <= end <= len,
            len == kept.len(),
            out@ == kept.subrange(lo as int, j as int),
        decreases end - j,
    {
        push_char(&mut out, cleaned[j]);
        assert(kept.subrange(lo as int, j + 1) =~= kept.subrange(lo as int, j as int).push(kept[j as int]));
        j = j + 1;
    }
    if truncated {
        assert(out@ =~= trim_end_hyphens(label.take(63)));
        assert(is_dns1123_label(out@)) by {
            let t = trim_end_hyphens(label.take(63));
            lemma_trim_end_prefix(label.take(63));
            assert forall|k: int| 0 <= k < t.len() implies is_dns_char(#[trigger] t[k]) by {
                assert(t[k] == label[k]);
            }
            assert(t[0] == label[0]);
        }
        Ok(Dns1123Result::Truncated(out))
    } else {
        assert(out@ =~= label);
        Ok(Dns1123Result::Valid(out))
    }
}

/// Helm naming: kebab-cased chart directories, snake_case value keys.
#[derive(Debug, Clone, Copy)]
pub struct HelmNaming;

/// The output file of an artifact of a resource whose kebab-case name is `base`.
pub open spec fn artifact_file_name(base: Seq<char>, kind: ArtifactKind) -> Seq<char> {
    match kind {
        ArtifactKind::Resource => "charts/"@ + base + "/Chart.yaml"@,
        ArtifactKind::Schema => "charts/"@ + base + "/values.schema.json"@,
        ArtifactKind::Test => "charts/"@ + base + "/tests/deployment_test.yaml"@,
        _ => "charts/"@ + base + "/"@ + base + ".yaml"@,
    }
}

impl HelmNaming {
    /// The resource type name: the kebab-case resource name.
    pub fn resource_type_name(&self, resource_name: &str, provider_name: &str) -> (res: String)
        ensures
            res@ == kebab(resource_name@),
    {
        to_kebab_case(resource_name)
    }

    /// The output file of an artifact of a resource.
    pub fn file_name(&self, resource_name: &str, kind: &ArtifactKind) -> (res: String)
        ensures
            res@ == artifact_file_name(kebab(resource_name@), *kind),
    {
        let base = to_kebab_case(resource_name);
        let mut s = String::from_str("charts/");
        s.append(base.as_str());
        match kind {
            ArtifactKind::Resource => s.append("/Chart.yaml"),
            ArtifactKind::Schema => s.append("/values.schema.json"),
            ArtifactKind::Test => s.append("/tests/deployment_test.yaml"),
            _ => {
                s.append("/");
                s.append(base.as_str());
                s.append(".yaml");
            },
        }
        s
    }

    /// The values key of an API field: its snake_case form.
    pub fn field_name(&self, api_name: &str) -> (res: String)
        ensures
            res@ == snake(api_name@),
    {
        to_snake_case(api_name)
    }
}

} // verus!
