//! Rules for the start of telemetry.
//!
//! Reading the environment and installing exporters is the caller's part.
use crate::text::{chars_of, trim, trimmed};
use vstd::prelude::*;

verus! {

/// A character with ASCII letters in lower case.
pub open spec fn ascii_lower(c: char) -> char {
    if 'A' <= c && c <= 'Z' {
        (c as u32 + 32) as char
    } else {
        c
    }
}

/// A text with ASCII letters in lower case.
pub open spec fn ascii_lower_text(s: Seq<char>) -> Seq<char> {
    Seq::new(s.len(), |i: int| ascii_lower(s[i]))
}

fn to_ascii_lower(c: char) -> (r: char)
    ensures
        r == ascii_lower(c),
{
    if 'A' <= c && c <= 'Z' {
        ((c as u8) + 32) as char
    } else {
        c
    }
}

/// Whether two texts are equal but for the case of ASCII letters.
pub fn eq_ignore_ascii_case(a: &str, b: &str) -> (r: bool)
    ensures
        r == (ascii_lower_text(a@) == ascii_lower_text(b@)),
{
    let x: Vec<char> = chars_of(a);
    let y: Vec<char> = chars_of(b);
    if x.len() != y.len() {
        assert(ascii_lower_text(a@).len() != ascii_lower_text(b@).len());
        return false;
    }
    let mut i: usize = 0;
    while i < x.len()
        invariant
            x@ == a@,
            y@ == b@,
            x@.len() == y@.len(),
            i <= x@.len(),
            forall|k: int| 0 <= k < i ==> ascii_lower(#[trigger] x@[k]) == ascii_lower(y@[k]),
        decreases x@.len() - i,
    {
        if to_ascii_lower(x[i]) != to_ascii_lower(y[i]) {
            assert(ascii_lower_text(a@)[i as int] != ascii_lower_text(b@)[i as int]);
            return false;
        }
        i = i + 1;
    }
    assert(ascii_lower_text(a@) =~= ascii_lower_text(b@));
    true
}

/// The variables that configure an endpoint for export over OTLP.
pub fn endpoint_variables() -> (r: Vec<String>)
    ensures
        r@.len() == 4,
        r@[0]@ == "OTEL_EXPORTER_OTLP_ENDPOINT"@,
        r@[1]@ == "OTEL_EXPORTER_OTLP_TRACES_ENDPOINT"@,
        r@[2]@ == "OTEL_EXPORTER_OTLP_METRICS_ENDPOINT"@,
        r@[3]@ == "OTEL_EXPORTER_OTLP_LOGS_ENDPOINT"@,
{
    let mut out: Vec<String> = Vec::new();
    out.push("OTEL_EXPORTER_OTLP_ENDPOINT".to_owned());
    out.push("OTEL_EXPORTER_OTLP_TRACES_ENDPOINT".to_owned());
    out.push("OTEL_EXPORTER_OTLP_METRICS_ENDPOINT".to_owned());
    out.push("OTEL_EXPORTER_OTLP_LOGS_ENDPOINT".to_owned());
    out
}

/// The variables that select an exporter for each signal.
pub fn exporter_variables() -> (r: Vec<String>)
    ensures
        r@.len() == 3,
        r@[0]@ == "OTEL_TRACES_EXPORTER"@,
        r@[1]@ == "OTEL_METRICS_EXPORTER"@,
        r@[2]@ == "OTEL_LOGS_EXPORTER"@,
{
    let mut out: Vec<String> = Vec::new();
    out.push("OTEL_TRACES_EXPORTER".to_owned());
    out.push("OTEL_METRICS_EXPORTER".to_owned());
    out.push("OTEL_LOGS_EXPORTER".to_owned());
    out
}

/// What the environment says about export over OTLP.
#[derive(Clone, Debug)]
pub struct OtlpEnvironment {
    /// For each endpoint variable whether it is set.
    pub endpoints_set: Vec<bool>,
    /// For each exporter variable its value, if set.
    pub exporters: Vec<Option<String>>,
    /// Whether a protocol is set.
    pub protocol_set: bool,
}

/// Whether an exporter variable selects OTLP, in whatever case and with white
/// space around.
pub open spec fn selects_otlp(value: Option<String>) -> bool {
    value is Some && ascii_lower_text(trimmed(value->0@)) == ascii_lower_text("otlp"@)
}

impl OtlpEnvironment {
    /// Whether an exporter was selected without an endpoint: by name or by
    /// protocol.
    pub open spec fn exporter_selected(self) -> bool {
        self.protocol_set || exists|i: int|
            0 <= i < self.exporters@.len() && selects_otlp(#[trigger] self.exporters@[i])
    }

    /// Whether export is asked for: by an endpoint, or by selecting an exporter.
    pub open spec fn enabled(self) -> bool {
        self.endpoints_set@.contains(true) || self.exporter_selected()
    }
}

/// Whether the environment selects OTLP export without configuring an endpoint.
pub fn otlp_exporter_selected(env: &OtlpEnvironment) -> (r: bool)
    ensures
        r == env.exporter_selected(),
{
    let mut i: usize = 0;
    while i < env.exporters.len()
        invariant
            i <= env.exporters@.len(),
            forall|k: int| 0 <= k < i ==> !selects_otlp(#[trigger] env.exporters@[k]),
        decreases env.exporters@.len() - i,
    {
        if let Some(value) = &env.exporters[i] {
            if eq_ignore_ascii_case(trim(value.as_str()).as_str(), "otlp") {
                assert(selects_otlp(env.exporters@[i as int]));
                return true;
            }
        }
        i = i + 1;
    }
    env.protocol_set
}

/// Whether the environment asks for OTLP export. Other telemetry variables, such
/// as a service name alone, do not.
pub fn otlp_enabled(env: &OtlpEnvironment) -> (r: bool)
    ensures
        r == env.enabled(),
{
    let mut i: usize = 0;
    while i < env.endpoints_set.len()
        invariant
            i <= env.endpoints_set@.len(),
            forall|k: int| 0 <= k < i ==> !(#[trigger] env.endpoints_set@[k]),
        decreases env.endpoints_set@.len() - i,
    {
        if env.endpoints_set[i] {
            assert(env.endpoints_set@[i as int]);
            return true;
        }
        i = i + 1;
    }
    otlp_exporter_selected(env)
}

/// The service name: the configured one, else the package's.
pub fn service_name(configured: Option<String>, package: &str) -> (r: String)
    ensures
        r@ == match configured {
            Some(name) => name@,
            None => package@,
        },
{
    match configured {
        Some(name) => name,
        None => package.to_owned(),
    }
}

/// Where telemetry goes.
#[derive(Clone, Copy, Debug, PartialEq, Eq, Structural)]
pub enum TelemetryMode {
    /// To the console only.
    Console,
    /// To the console and over OTLP.
    Otlp,
}

/// Decides where telemetry goes. It is best-effort: where the exporters cannot be
/// set up, the console serves.
pub fn telemetry_mode(enabled: bool, exporters_ready: bool) -> (r: TelemetryMode)
    ensures
        r == if enabled && exporters_ready {
            TelemetryMode::Otlp
        } else {
            TelemetryMode::Console
        },
{
    if enabled && exporters_ready {
        TelemetryMode::Otlp
    } else {
        TelemetryMode::Console
    }
}

/// Without an endpoint, an exporter or a protocol set, nothing is exported.
pub proof fn law_no_intent_no_export(env: OtlpEnvironment)
    requires
        forall|i: int|
            0 <= i < env.endpoints_set@.len() ==> !(#[trigger] env.endpoints_set@[i]),
        forall|i: int| 0 <= i < env.exporters@.len() ==> (#[trigger] env.exporters@[i]) is None,
        !env.protocol_set,
    ensures
        !env.enabled(),
{
}

/// Only ASCII capitals have another form in lower case: the letter of the same place in
/// the alphabet.
pub proof fn law_lower_case(c: char)
    ensures
        'A' <= c <= 'Z' ==> 'a' <= ascii_lower(c) <= 'z' && ascii_lower(c) as int - 'a' as int == c
            as int - 'A' as int,
        !('A' <= c <= 'Z') ==> ascii_lower(c) == c,
{
}

/// Texts are equal but for case exactly where they have the same length and, place by
/// place, the same character or the two forms of one ASCII letter.
pub proof fn law_equal_but_for_case(a: Seq<char>, b: Seq<char>)
    ensures
        ascii_lower_text(a) == ascii_lower_text(b) <==> a.len() == b.len() && forall|i: int|
            0 <= i < a.len() ==> {
                ||| #[trigger] a[i] == b[i]
                ||| 'A' <= a[i] <= 'Z' && b[i] as int == a[i] as int + 32
                ||| 'A' <= b[i] <= 'Z' && a[i] as int == b[i] as int + 32
            },
{
    let x = ascii_lower_text(a);
    let y = ascii_lower_text(b);
    if x == y {
        assert(x.len() == y.len());
        assert forall|i: int| 0 <= i < a.len() implies {
            ||| #[trigger] a[i] == b[i]
            ||| 'A' <= a[i] <= 'Z' && b[i] as int == a[i] as int + 32
            ||| 'A' <= b[i] <= 'Z' && a[i] as int == b[i] as int + 32
        } by {
            assert(x[i] == ascii_lower(a[i]));
            assert(y[i] == ascii_lower(b[i]));
        }
    }
    if a.len() == b.len() && forall|i: int|
        0 <= i < a.len() ==> {
            ||| #[trigger] a[i] == b[i]
            ||| 'A' <= a[i] <= 'Z' && b[i] as int == a[i] as int + 32
            ||| 'A' <= b[i] <= 'Z' && a[i] as int == b[i] as int + 32
        } {
        assert forall|i: int| 0 <= i < x.len() implies x[i] == y[i] by {
            assert(a[i] == a[i]);
        }
        assert(x =~= y);
    }
}

/// An exporter is selected by the four letters of `otlp`, in whatever case, with white
/// space around, and by nothing else.
pub proof fn law_otlp_is_selected_by_name(value: Option<String>)
    ensures
        selects_otlp(value) <==> value is Some && {
            let t = trimmed(value->0@);
            &&& t.len() == 4
            &&& (t[0] == 'o' || t[0] == 'O') && (t[1] == 't' || t[1] == 'T')
            &&& (t[2] == 'l' || t[2] == 'L') && (t[3] == 'p' || t[3] == 'P')
        },
{
    reveal_strlit("otlp");
    if value is Some {
        let t = trimmed(value->0@);
        law_equal_but_for_case(t, "otlp"@);
        if t.len() == 4 {
            assert(t[0] == t[0] && t[1] == t[1] && t[2] == t[2] && t[3] == t[3]);
        }
    }
}

/// Any sign of intent is enough: one endpoint, one exporter selected, or a protocol.
pub proof fn law_any_intent_exports(env: OtlpEnvironment, i: int)
    ensures
        0 <= i < env.endpoints_set@.len() && env.endpoints_set@[i] ==> env.enabled(),
        0 <= i < env.exporters@.len() && selects_otlp(env.exporters@[i]) ==> env.enabled()
            && env.exporter_selected(),
        env.protocol_set ==> env.enabled() && env.exporter_selected(),
        env.enabled() ==> env.protocol_set || (exists|k: int|
            0 <= k < env.endpoints_set@.len() && #[trigger] env.endpoints_set@[k]) || (exists|k: int|
            0 <= k < env.exporters@.len() && selects_otlp(#[trigger] env.exporters@[k])),
        env.exporter_selected() ==> env.protocol_set || (exists|k: int|
            0 <= k < env.exporters@.len() && selects_otlp(#[trigger] env.exporters@[k])),
{
}

/// Telemetry goes over OTLP exactly where that is asked for and can be set up.
pub proof fn law_telemetry_is_best_effort(enabled: bool, exporters_ready: bool, r: TelemetryMode)
    requires
        call_ensures(telemetry_mode, (enabled, exporters_ready), r),
    ensures
        r == TelemetryMode::Otlp <==> enabled && exporters_ready,
        r == TelemetryMode::Console <==> !enabled || !exporters_ready,
{
}

} // verus!
