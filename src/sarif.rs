//! The diagnostics document of an audit, in the SARIF 2.1.0 shape.
//!
//! The document is laid out as `serde_json`'s pretty printer lays out an
//! object: members in key order, two spaces of indent per level.
use vstd::prelude::*;
use crate::audit::{SecurityAudit, Vulnerability};

verus! {

/// What `serde_json::to_string` makes of a string: the JSON string literal,
/// quotes and escapes included.
pub uninterp spec fn json_string_of(s: Seq<char>) -> Seq<char>;

/// Relies on `serde_json::to_string` on a `str`, which writes the escaped
/// literal into a `Vec<u8>` and so has no error to give.
#[verifier::external_body]
fn json_string(s: &str) -> (r: String)
    ensures
        r@ == json_string_of(s@),
{
    match serde_json::to_string(s) {
        Ok(q) => q,
        Err(_) => String::new(),
    }
}

/// The level of a finding from its overall severity in tenths: from 9.0
/// `error`, from 7.0 `warning`, below that `note`.
pub open spec fn sarif_level(overall: nat) -> Seq<char> {
    if overall >= 90 {
        "error"@
    } else if overall >= 70 {
        "warning"@
    } else {
        "note"@
    }
}

pub fn severity_level(overall: u32) -> (r: &'static str)
    ensures
        r@ == sarif_level(overall as nat),
{
    if overall >= 90 {
        "error"
    } else if overall >= 70 {
        "warning"
    } else {
        "note"
    }
}

/// One `result` object, at the indent of an element of `results`.
pub open spec fn sarif_result(v: Vulnerability) -> Seq<char> {
    "        {\n          \"fixes\": [\n            {\n              \"description\": {\n                \"text\": "@
        + json_string_of(v.remediation@)
        + "\n              }\n            }\n          ],\n          \"level\": \""@
        + sarif_level(v.severity.overall as nat)
        + "\",\n          \"locations\": [\n            {\n              \"physicalLocation\": {\n                \"artifactLocation\": {\n                  \"uri\": "@
        + json_string_of(v.affected_component@)
        + "\n                }\n              }\n            }\n          ],\n          \"message\": {\n            \"text\": "@
        + json_string_of(v.description@) + "\n          },\n          \"ruleId\": "@
        + json_string_of(v.id@) + "\n        }"@
}

/// The `result` objects, separated by commas.
pub open spec fn sarif_results(s: Seq<Vulnerability>) -> Seq<char>
    decreases s.len(),
{
    if s.len() == 0 {
        Seq::empty()
    } else if s.len() == 1 {
        sarif_result(s[0])
    } else {
        sarif_results(s.drop_last()) + ",\n"@ + sarif_result(s.last())
    }
}

pub open spec fn results_array(s: Seq<Vulnerability>) -> Seq<char> {
    if s.len() == 0 {
        "[]"@
    } else {
        "[\n"@ + sarif_results(s) + "\n      ]"@
    }
}

/// The whole document: version 2.1.0, one run, the fixed tool driver and one
/// result per finding in the audit's order.
pub open spec fn sarif_document(a: SecurityAudit) -> Seq<char> {
    "{\n  \"runs\": [\n    {\n      \"results\": "@ + results_array(a.vulnerabilities@)
        + ",\n      \"tool\": {\n        \"driver\": {\n          \"informationUri\": \"https://github.com/openrye/openrye\",\n          \"name\": \"OpenRye Security Audit\",\n          \"version\": \"0.1.0\"\n        }\n      }\n    }\n  ],\n  \"version\": \"2.1.0\"\n}"@
}

fn result_text(v: &Vulnerability) -> (r: String)
    ensures
        r@ == sarif_result(*v),
{
    let mut r = String::from_str(
        "        {\n          \"fixes\": [\n            {\n              \"description\": {\n                \"text\": ",
    );
    r.append(&json_string(v.remediation.as_str()));
    r.append("\n              }\n            }\n          ],\n          \"level\": \"");
    r.append(severity_level(v.severity.overall));
    r.append(
        "\",\n          \"locations\": [\n            {\n              \"physicalLocation\": {\n                \"artifactLocation\": {\n                  \"uri\": ",
    );
    r.append(&json_string(v.affected_component.as_str()));
    r.append(
        "\n                }\n              }\n            }\n          ],\n          \"message\": {\n            \"text\": ",
    );
    r.append(&json_string(v.description.as_str()));
    r.append("\n          },\n          \"ruleId\": ");
    r.append(&json_string(v.id.as_str()));
    r.append("\n        }");
    r
}

/// The diagnostics document of `audit`.
pub fn generate_sarif_output(audit: &SecurityAudit) -> (r: String)
    ensures
        r@ == sarif_document(*audit),
{
    let s = &audit.vulnerabilities;
    let mut results = String::new();
    let mut i: usize = 0;
    while i < s.len()
        invariant
            i <= s@.len(),
            results@ == sarif_results(s@.subrange(0, i as int)),
        decreases s.len() - i,
    {
        proof {
            assert(s@.subrange(0, i + 1).drop_last() =~= s@.subrange(0, i as int));
            assert(s@.subrange(0, i + 1)[0] == s@[0]);
        }
        let item = result_text(&s[i]);
        if i == 0 {
            results = item;
        } else {
            results.append(",\n");
            results.append(&item);
        }
        i = i + 1;
    }
    proof {
        assert(s@.subrange(0, s@.len() as int) =~= s@);
    }
    let mut array = String::new();
    if s.len() == 0 {
        array = String::from_str("[]");
    } else {
        array = String::from_str("[\n");
        array.append(&results);
        array.append("\n      ]");
    }
    let mut r = String::from_str("{\n  \"runs\": [\n    {\n      \"results\": ");
    r.append(&array);
    r.append(
        ",\n      \"tool\": {\n        \"driver\": {\n          \"informationUri\": \"https://github.com/openrye/openrye\",\n          \"name\": \"OpenRye Security Audit\",\n          \"version\": \"0.1.0\"\n        }\n      }\n    }\n  ],\n  \"version\": \"2.1.0\"\n}",
    );
    r
}

} // verus!
