//! The HTML report of an audit.
use vstd::prelude::*;
use crate::audit::{level_name, SecurityAudit, Vulnerability};
use crate::num::{decimal, decimal_text, tenths_display, tenths_text};

verus! {

/// The badge color for a risk score in tenths: above 75 red, above 50
/// orange, above 25 yellow, else green.
pub open spec fn risk_color(score: nat) -> Seq<char> {
    if score > 750 {
        "#d32f2f"@
    } else if score > 500 {
        "#f57c00"@
    } else if score > 250 {
        "#fbc02d"@
    } else {
        "#388e3c"@
    }
}

/// The badge class for a risk score in tenths, banded as `risk_color`.
pub open spec fn risk_class(score: nat) -> Seq<char> {
    if score > 750 {
        "critical"@
    } else if score > 500 {
        "high"@
    } else if score > 250 {
        "medium"@
    } else {
        "low"@
    }
}

fn risk_color_str(score: u32) -> (r: &'static str)
    ensures
        r@ == risk_color(score as nat),
{
    if score > 750 {
        "#d32f2f"
    } else if score > 500 {
        "#f57c00"
    } else if score > 250 {
        "#fbc02d"
    } else {
        "#388e3c"
    }
}

fn risk_class_str(score: u32) -> (r: &'static str)
    ensures
        r@ == risk_class(score as nat),
{
    if score > 750 {
        "critical"
    } else if score > 500 {
        "high"
    } else if score > 250 {
        "medium"
    } else {
        "low"
    }
}

/// The block of one finding.
pub open spec fn vulnerability_block(v: Vulnerability) -> Seq<char> {
    "<div class=\"vulnerability\">\n                <h3>"@ + v.id@ + "</h3>\n                <p>"@ + v.description@ + "</p>\n                <p><strong>Component:</strong> "@ + v.affected_component@ + "</p>\n                <p><strong>Fix:</strong> "@ + v.remediation@ + "</p>\n            </div>"@
}

pub open spec fn vulnerability_blocks(s: Seq<Vulnerability>) -> Seq<char>
    decreases s.len(),
{
    if s.len() == 0 {
        Seq::empty()
    } else {
        vulnerability_blocks(s.drop_last()) + vulnerability_block(s.last())
    }
}

/// The HTML document: the banded risk badge, one block per finding, the
/// supply-chain tiles and the executive summary.
pub open spec fn html_document(a: SecurityAudit) -> Seq<char> {
    "\n<!DOCTYPE html>\n<html>\n<head>\n    <title>OpenRye Security Audit Report</title>\n    <style>\n        body { \n            font-family: -apple-system, BlinkMacSystemFont, \"Segoe UI\", Roboto, sans-serif; \n            margin: 40px;\n            background: linear-gradient(135deg, #667eea 0%, #764ba2 100%);\n            color: #fff;\n        }\n        .container {\n            background: #fff;\n            color: #333;\n            border-radius: 12px;\n            padding: 30px;\n            box-shadow: 0 20px 60px rgba(0,0,0,0.3);\n        }\n        h1 { color: #667eea; }\n        .risk-score {\n            font-size: 48px;\n            font-weight: bold;\n            color: "@
        + risk_color(a.risk_score as nat) + ";\n        }\n        .critical { color: #d32f2f; }\n        .high { color: #f57c00; }\n        .medium { color: #fbc02d; }\n        .low { color: #388e3c; }\n        .vulnerability {\n            border-left: 4px solid #d32f2f;\n            padding-left: 20px;\n            margin: 20px 0;\n        }\n        .metric {\n            display: inline-block;\n            margin: 10px 20px 10px 0;\n            padding: 10px;\n            background: #f5f5f5;\n            border-radius: 6px;\n        }\n    </style>\n</head>\n<body>\n    <div class=\"container\">\n        <h1>🔒 OpenRye Security Audit Report</h1>\n        <div class=\"risk-score "@
        + risk_class(a.risk_score as nat) + "\">"@
        + tenths_display(a.risk_score as nat) + "/100</div>\n        <p>Risk Level: "@
        + level_name(a.risk_level) + "</p>\n        <p>Scan Time: "@
        + a.scan_timestamp.display() + "</p>\n        \n        <h2>Vulnerabilities ("@
        + decimal(a.vulnerabilities@.len()) + ")</h2>\n        "@
        + vulnerability_blocks(a.vulnerabilities@) + "\n        \n        <h2>Supply Chain Analysis</h2>\n        <div class=\"metric\">Direct Dependencies: "@
        + decimal(a.supply_chain.direct_dependencies as nat) + "</div>\n        <div class=\"metric\">Transitive Dependencies: "@
        + decimal(a.supply_chain.transitive_dependencies as nat) + "</div>\n        <div class=\"metric\">Supply Chain Risk: "@
        + tenths_display(a.supply_chain.risk_score as nat) + "/100</div>\n        \n        <h2>Executive Summary</h2>\n        <p>"@
        + a.executive_summary@ + "</p>\n    </div>\n</body>\n</html>\n    "@
}

/// The HTML report of `audit`.
pub fn generate_html_report(audit: &SecurityAudit) -> (r: String)
    ensures
        r@ == html_document(*audit),
{
    let s = &audit.vulnerabilities;
    let mut blocks = String::new();
    let mut i: usize = 0;
    while i < s.len()
        invariant
            i <= s@.len(),
            blocks@ == vulnerability_blocks(s@.subrange(0, i as int)),
        decreases s.len() - i,
    {
        proof {
            assert(s@.subrange(0, i + 1).drop_last() =~= s@.subrange(0, i as int));
        }
        let v = &s[i];
        let mut e = String::from_str("<div class=\"vulnerability\">\n                <h3>");
        e.append(&v.id);
        e.append("</h3>\n                <p>");
        e.append(&v.description);
        e.append("</p>\n                <p><strong>Component:</strong> ");
        e.append(&v.affected_component);
        e.append("</p>\n                <p><strong>Fix:</strong> ");
        e.append(&v.remediation);
        e.append("</p>\n            </div>");
        blocks.append(&e);
        i = i + 1;
    }
    proof {
        assert(s@.subrange(0, s@.len() as int) =~= s@);
    }
    let mut r = String::from_str("\n<!DOCTYPE html>\n<html>\n<head>\n    <title>OpenRye Security Audit Report</title>\n    <style>\n        body { \n            font-family: -apple-system, BlinkMacSystemFont, \"Segoe UI\", Roboto, sans-serif; \n            margin: 40px;\n            background: linear-gradient(135deg, #667eea 0%, #764ba2 100%);\n            color: #fff;\n        }\n        .container {\n            background: #fff;\n            color: #333;\n            border-radius: 12px;\n            padding: 30px;\n            box-shadow: 0 20px 60px rgba(0,0,0,0.3);\n        }\n        h1 { color: #667eea; }\n        .risk-score {\n            font-size: 48px;\n            font-weight: bold;\n            color: ");
    r.append(risk_color_str(audit.risk_score));
    r.append(";\n        }\n        .critical { color: #d32f2f; }\n        .high { color: #f57c00; }\n        .medium { color: #fbc02d; }\n        .low { color: #388e3c; }\n        .vulnerability {\n            border-left: 4px solid #d32f2f;\n            padding-left: 20px;\n            margin: 20px 0;\n        }\n        .metric {\n            display: inline-block;\n            margin: 10px 20px 10px 0;\n            padding: 10px;\n            background: #f5f5f5;\n            border-radius: 6px;\n        }\n    </style>\n</head>\n<body>\n    <div class=\"container\">\n        <h1>🔒 OpenRye Security Audit Report</h1>\n        <div class=\"risk-score ");
    r.append(risk_class_str(audit.risk_score));
    r.append("\">");
    r.append(&tenths_text(audit.risk_score as u64));
    r.append("/100</div>\n        <p>Risk Level: ");
    r.append(audit.risk_level.name());
    r.append("</p>\n        <p>Scan Time: ");
    r.append(&audit.scan_timestamp.text());
    r.append("</p>\n        \n        <h2>Vulnerabilities (");
    r.append(&decimal_text(audit.vulnerabilities.len() as u64));
    r.append(")</h2>\n        ");
    r.append(&blocks);
    r.append("\n        \n        <h2>Supply Chain Analysis</h2>\n        <div class=\"metric\">Direct Dependencies: ");
    r.append(&decimal_text(audit.supply_chain.direct_dependencies as u64));
    r.append("</div>\n        <div class=\"metric\">Transitive Dependencies: ");
    r.append(&decimal_text(audit.supply_chain.transitive_dependencies as u64));
    r.append("</div>\n        <div class=\"metric\">Supply Chain Risk: ");
    r.append(&tenths_text(audit.supply_chain.risk_score as u64));
    r.append("/100</div>\n        \n        <h2>Executive Summary</h2>\n        <p>");
    r.append(&audit.executive_summary);
    r.append("</p>\n    </div>\n</body>\n</html>\n    ");
    r
}

} // verus!
