//! Generator configuration: chart metadata, library chart dependency,
//! container defaults and feature toggles, with validation.

use vstd::prelude::*;

verus! {

/// Configuration of the Helm chart generator.
///
/// Every field has a default matching pleme-io conventions (see `Default`).
#[derive(Debug, Clone)]
pub struct HelmConfig {
    /// Name of the library chart dependency (default `"pleme-lib"`).
    pub lib_chart_name: String,
    /// Semver constraint for the library chart (default `"~0.4.0"`).
    pub lib_chart_version: String,
    /// Helm repository of the library chart (default `"file://../pleme-lib"`).
    pub lib_chart_repository: String,
    /// Chart version of generated charts (default `"0.1.0"`).
    pub default_chart_version: String,
    /// appVersion of generated charts (default `"1.0.0"`).
    pub default_app_version: String,
    /// Replica count (default `1`).
    pub replica_count: u32,
    /// Container image repository (default `"ghcr.io/pleme-io/placeholder"`).
    pub default_image_repository: String,
    /// Image pull policy (default `"Always"`).
    pub image_pull_policy: String,
    /// Container port (default `8080`).
    pub default_container_port: u16,
    /// Kubernetes Service type (default `"ClusterIP"`).
    pub default_service_type: String,
    /// CPU request (default `"50m"`).
    pub cpu_request: String,
    /// Memory request (default `"64Mi"`).
    pub memory_request: String,
    /// CPU limit (default `"200m"`).
    pub cpu_limit: String,
    /// Memory limit (default `"256Mi"`).
    pub memory_limit: String,
    /// Monitoring (ServiceMonitor) enabled (default `true`).
    pub monitoring_enabled: bool,
    /// NetworkPolicy enabled (default `true`).
    pub network_policy_enabled: bool,
    /// PodDisruptionBudget enabled (default `false`).
    pub pdb_enabled: bool,
    /// HorizontalPodAutoscaler enabled (default `false`).
    pub autoscaling_enabled: bool,
}

/// The default configuration, field by field.
pub open spec fn is_default_config(c: HelmConfig) -> bool {
    &&& c.lib_chart_name@ == "pleme-lib"@
    &&& c.lib_chart_version@ == "~0.4.0"@
    &&& c.lib_chart_repository@ == "file://../pleme-lib"@
    &&& c.default_chart_version@ == "0.1.0"@
    &&& c.default_app_version@ == "1.0.0"@
    &&& c.replica_count == 1
    &&& c.default_image_repository@ == "ghcr.io/pleme-io/placeholder"@
    &&& c.image_pull_policy@ == "Always"@
    &&& c.default_container_port == 8080
    &&& c.default_service_type@ == "ClusterIP"@
    &&& c.cpu_request@ == "50m"@
    &&& c.memory_request@ == "64Mi"@
    &&& c.cpu_limit@ == "200m"@
    &&& c.memory_limit@ == "256Mi"@
    &&& c.monitoring_enabled
    &&& c.network_policy_enabled
    &&& !c.pdb_enabled
    &&& !c.autoscaling_enabled
}

impl Default for HelmConfig {
    fn default() -> (c: Self)
        ensures
            is_default_config(c),
    {
        HelmConfig {
            lib_chart_name: String::from_str("pleme-lib"),
            lib_chart_version: String::from_str("~0.4.0"),
            lib_chart_repository: String::from_str("file://../pleme-lib"),
            default_chart_version: String::from_str("0.1.0"),
            default_app_version: String::from_str("1.0.0"),
            replica_count: 1,
            default_image_repository: String::from_str("ghcr.io/pleme-io/placeholder"),
            image_pull_policy: String::from_str("Always"),
            default_container_port: 8080,
            default_service_type: String::from_str("ClusterIP"),
            cpu_request: String::from_str("50m"),
            memory_request: String::from_str("64Mi"),
            cpu_limit: String::from_str("200m"),
            memory_limit: String::from_str("256Mi"),
            monitoring_enabled: true,
            network_policy_enabled: true,
            pdb_enabled: false,
            autoscaling_enabled: false,
        }
    }
}

/// The quantity suffixes, in the order in which they are tried: binary
/// (`Ki` .. `Ei`) before decimal (`m`, `k`, `M` .. `E`).
pub open spec fn quantity_suffixes() -> Seq<Seq<char>> {
    seq![
        "Ki"@, "Mi"@, "Gi"@, "Ti"@, "Pi"@, "Ei"@,
        "m"@, "k"@, "M"@, "G"@, "T"@, "P"@, "E"@,
    ]
}

/// `s` ends with `suffix`.
pub open spec fn ends_with(s: Seq<char>, suffix: Seq<char>) -> bool {
    suffix.len() <= s.len() && s.subrange(s.len() - suffix.len(), s.len() as int) == suffix
}

/// The first of `suffixes` that `s` ends with, if any.
pub open spec fn first_suffix(s: Seq<char>, suffixes: Seq<Seq<char>>) -> Option<Seq<char>>
    decreases suffixes.len(),
{
    if suffixes.len() == 0 {
        None
    } else if ends_with(s, suffixes[0]) {
        Some(suffixes[0])
    } else {
        first_suffix(s, suffixes.drop_first())
    }
}

/// A character allowed before a unit suffix: an ASCII digit or `.`.
pub open spec fn is_mantissa_char(c: char) -> bool {
    ('0' <= c && c <= '9') || c == '.'
}

/// A character allowed in a plain number: a digit, `.`, `e` or `E`.
pub open spec fn is_plain_number_char(c: char) -> bool {
    is_mantissa_char(c) || c == 'e' || c == 'E'
}

/// Every character of `s` satisfies the mantissa rule.
pub open spec fn all_mantissa(s: Seq<char>) -> bool {
    forall|i: int| 0 <= i < s.len() ==> is_mantissa_char(#[trigger] s[i])
}

/// Every character of `s` satisfies the plain-number rule.
pub open spec fn all_plain_number(s: Seq<char>) -> bool {
    forall|i: int| 0 <= i < s.len() ==> is_plain_number_char(#[trigger] s[i])
}

/// The heuristic for Kubernetes resource quantities: a non-empty string that
/// either ends with the first matching unit suffix preceded by a non-empty run
/// of digits and dots, or (with no suffix) consists of digits, dots and
/// exponent markers only.
pub open spec fn is_quantity(s: Seq<char>) -> bool {
    s.len() > 0 && match first_suffix(s, quantity_suffixes()) {
        Some(suffix) => {
            let prefix = s.subrange(0, s.len() - suffix.len());
            prefix.len() > 0 && all_mantissa(prefix)
        },
        None => all_plain_number(s),
    }
}

/// The validation messages for a configuration, in the order of the checks.
pub open spec fn validation_errors(c: HelmConfig) -> Seq<Seq<char>> {
    (if c.lib_chart_version@.len() == 0 {
        seq!["lib_chart_version must not be empty"@]
    } else {
        Seq::empty()
    }) + (if c.default_chart_version@.len() == 0 {
        seq!["default_chart_version must not be empty"@]
    } else {
        Seq::empty()
    }) + (if c.replica_count == 0 {
        seq!["replica_count must be greater than 0"@]
    } else {
        Seq::empty()
    }) + (if !is_quantity(c.cpu_request@) {
        seq![
            "cpu_request '"@ + c.cpu_request@
                + "' does not look like a valid Kubernetes quantity"@,
        ]
    } else {
        Seq::empty()
    }) + (if !is_quantity(c.memory_request@) {
        seq![
            "memory_request '"@ + c.memory_request@
                + "' does not look like a valid Kubernetes quantity"@,
        ]
    } else {
        Seq::empty()
    })
}

/// The views of a sequence of strings.
pub open spec fn string_views(v: Seq<String>) -> Seq<Seq<char>> {
    v.map_values(|s: String| s@)
}

/// Whether `s` ends with `suffix`, character by character.
pub fn str_ends_with(s: &str, suffix: &str) -> (res: bool)
    ensures
        res == ends_with(s@, suffix@),
{
    let n = s.unicode_len();
    let m = suffix.unicode_len();
    if m > n {
        return false;
    }
    let off = n - m;
    let mut i: usize = 0;
    while i < m
        invariant
            n == s@.len(),
            m == suffix@.len(),
            off == n - m,
            0 <= i <= m,
            forall|j: int| 0 <= j < i ==> s@[off + j] == suffix@[j],
        decreases m - i,
    {
        if s.get_char(off + i) != suffix.get_char(i) {
            assert(s@.subrange(off as int, n as int)[i as int] != suffix@[i as int]);
            return false;
        }
        i = i + 1;
    }
    assert(s@.subrange(off as int, n as int) =~= suffix@);
    true
}

/// Whether the first `len` characters of `s` satisfy the mantissa rule.
fn prefix_all_mantissa(s: &str, len: usize) -> (res: bool)
    requires
        len <= s@.len(),
    ensures
        res == all_mantissa(s@.subrange(0, len as int)),
{
    let mut i: usize = 0;
    while i < len
        invariant
            len <= s@.len(),
            0 <= i <= len,
            forall|j: int| 0 <= j < i ==> is_mantissa_char(#[trigger] s@[j]),
        decreases len - i,
    {
        let c = s.get_char(i);
        if !(('0' <= c && c <= '9') || c == '.') {
            assert(s@.subrange(0, len as int)[i as int] == c);
            return false;
        }
        i = i + 1;
    }
    assert forall|j: int| 0 <= j < len implies is_mantissa_char(
        #[trigger] s@.subrange(0, len as int)[j],
    ) by {
        assert(s@.subrange(0, len as int)[j] == s@[j]);
    }
    true
}

/// Whether every character of `s` satisfies the plain-number rule.
fn str_all_plain_number(s: &str) -> (res: bool)
    ensures
        res == all_plain_number(s@),
{
    let n = s.unicode_len();
    let mut i: usize = 0;
    while i < n
        invariant
            n == s@.len(),
            0 <= i <= n,
            forall|j: int| 0 <= j < i ==> is_plain_number_char(#[trigger] s@[j]),
        decreases n - i,
    {
        let c = s.get_char(i);
        if !(('0' <= c && c <= '9') || c == '.' || c == 'e' || c == 'E') {
            return false;
        }
        i = i + 1;
    }
    true
}

/// Basic check for Kubernetes resource quantities such as `100m`, `0.5`,
/// `128Mi`, `1Gi`, `2e3` or `500`. A heuristic, not a full parser.
pub fn is_k8s_quantity(s: &str) -> (res: bool)
    ensures
        res == is_quantity(s@),
{
    let n = s.unicode_len();
    if n == 0 {
        return false;
    }
    let suffixes: Vec<&str> = vec!["Ki", "Mi", "Gi", "Ti", "Pi", "Ei", "m", "k", "M", "G", "T", "P", "E"];
    let ghost sufs = quantity_suffixes();
    assert(suffixes@.map_values(|x: &str| x@) =~= sufs);
    assert(sufs.skip(0) =~= sufs);
    let mut i: usize = 0;
    while i < suffixes.len()
        invariant
            0 <= i <= suffixes.len(),
            suffixes.len() == 13,
            n == s@.len(),
            n > 0,
            sufs == quantity_suffixes(),
            suffixes@.map_values(|x: &str| x@) == sufs,
            first_suffix(s@, sufs) == first_suffix(s@, sufs.skip(i as int)),
        decreases suffixes.len() - i,
    {
        let suffix = suffixes[i];
        assert(suffix@ == sufs[i as int]);
        assert(sufs.skip(i as int).drop_first() =~= sufs.skip(i + 1));
        if str_ends_with(s, suffix) {
            let m = suffix.unicode_len();
            let plen = n - m;
            return plen > 0 && prefix_all_mantissa(s, plen);
        }
        i = i + 1;
    }
    assert(sufs.skip(13) =~= Seq::<Seq<char>>::empty());
    str_all_plain_number(s)
}

impl HelmConfig {
    /// Checks the configuration and returns one message per problem found:
    /// an empty `lib_chart_version` or `default_chart_version`, a zero
    /// `replica_count`, and a `cpu_request` or `memory_request` that does not
    /// look like a Kubernetes quantity. Empty when the configuration is valid.
    pub fn validate(&self) -> (errors: Vec<String>)
        ensures
            string_views(errors@) == validation_errors(*self),
    {
        let mut errors: Vec<String> = Vec::new();
        let ghost c = *self;
        if self.lib_chart_version.as_str().unicode_len() == 0 {
            errors.push(String::from_str("lib_chart_version must not be empty"));
        }
        let ghost e1 = string_views(errors@);
        if self.default_chart_version.as_str().unicode_len() == 0 {
            errors.push(String::from_str("default_chart_version must not be empty"));
        }
        let ghost e2 = string_views(errors@);
        if self.replica_count == 0 {
            errors.push(String::from_str("replica_count must be greater than 0"));
        }
        let ghost e3 = string_views(errors@);
        if !is_k8s_quantity(self.cpu_request.as_str()) {
            let mut m = String::from_str("cpu_request '");
            m.append(self.cpu_request.as_str());
            m.append("' does not look like a valid Kubernetes quantity");
            errors.push(m);
        }
        let ghost e4 = string_views(errors@);
        if !is_k8s_quantity(self.memory_request.as_str()) {
            let mut m = String::from_str("memory_request '");
            m.append(self.memory_request.as_str());
            m.append("' does not look like a valid Kubernetes quantity");
            errors.push(m);
        }
        assert(string_views(errors@) =~= validation_errors(c));
        errors
    }
}

} // verus!
