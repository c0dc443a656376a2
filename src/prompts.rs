//! The queries that an audit cycle sends to the inference backend.
use vstd::prelude::*;

verus! {

pub open spec fn dependency_prompt(path: Seq<char>) -> Seq<char> {
    "List all dependencies and their versions found in the project at: "@ + path
}

/// Asks the backend for the project's dependencies and their versions.
pub fn scan_dependencies_prompt(project_path: &str) -> (r: String)
    ensures
        r@ == dependency_prompt(project_path@),
{
    let mut r = String::from_str("List all dependencies and their versions found in the project at: ");
    r.append(project_path);
    r
}

pub open spec fn code_pattern_prompt(path: Seq<char>) -> Seq<char> {
    "Scan for vulnerable code patterns in the project at: "@ + path + ". Look for SQL injection, XSS, command injection, path traversal, insecure deserialization, and other security anti-patterns."@
}

/// Asks the backend for vulnerable code patterns in the project.
pub fn scan_code_patterns_prompt(project_path: &str) -> (r: String)
    ensures
        r@ == code_pattern_prompt(project_path@),
{
    let mut r = String::from_str("Scan for vulnerable code patterns in the project at: ");
    r.append(project_path);
    r.append(". Look for SQL injection, XSS, command injection, path traversal, insecure deserialization, and other security anti-patterns.");
    r
}

pub open spec fn configuration_prompt(path: Seq<char>) -> Seq<char> {
    "Check for security misconfigurations in: "@ + path + ". Look at CORS settings, authentication config, TLS settings, exposed debug endpoints, default credentials, etc."@
}

/// Asks the backend for security misconfigurations in the project.
pub fn scan_configurations_prompt(project_path: &str) -> (r: String)
    ensures
        r@ == configuration_prompt(project_path@),
{
    let mut r = String::from_str("Check for security misconfigurations in: ");
    r.append(project_path);
    r.append(". Look at CORS settings, authentication config, TLS settings, exposed debug endpoints, default credentials, etc.");
    r
}

pub open spec fn known_vulnerability_prompt(dependencies: Seq<char>) -> Seq<char> {
    "\nCheck these dependencies against the latest CVE database (as of 2024).\nInclude any CVEs published in the last 30 days.\nFocus on critical and high severity vulnerabilities.\n\nDependencies:\n"@ + dependencies + "\n\nFor each vulnerability found, provide:\n- CVE ID\n- CVSS score\n- Description\n- Affected versions\n- Fixed versions\n- Exploit availability\n- Public exploit code existence\n- Remediation steps\n"@
}

/// Asks the backend to match the dependency evidence against known vulnerabilities.
pub fn check_latest_cves_prompt(dependencies: &str) -> (r: String)
    ensures
        r@ == known_vulnerability_prompt(dependencies@),
{
    let mut r = String::from_str("\nCheck these dependencies against the latest CVE database (as of 2024).\nInclude any CVEs published in the last 30 days.\nFocus on critical and high severity vulnerabilities.\n\nDependencies:\n");
    r.append(dependencies);
    r.append("\n\nFor each vulnerability found, provide:\n- CVE ID\n- CVSS score\n- Description\n- Affected versions\n- Fixed versions\n- Exploit availability\n- Public exploit code existence\n- Remediation steps\n");
    r
}

pub open spec fn zero_day_prompt(code_patterns: Seq<char>) -> Seq<char> {
    "\nAnalyze these code patterns for potential 0-day vulnerabilities.\nLook for patterns similar to recent CVEs but not yet documented.\nConsider emerging attack vectors and novel exploitation techniques.\n\nCode patterns:\n"@ + code_patterns + "\n\nIdentify:\n1. Patterns similar to known vulnerabilities but in new contexts\n2. Unsafe combinations of safe operations\n3. Race conditions and TOCTOU bugs\n4. Logic flaws that could be exploited\n5. Novel attack surfaces in new APIs/frameworks\n6. Potential for chain exploitation\n7. Side-channel vulnerabilities\n8. Speculative execution vulnerabilities\n\nProvide confidence scores and potential impact assessments.\n"@
}

/// Asks the backend for novel, undocumented vulnerability patterns in the code evidence.
pub fn detect_zero_day_patterns_prompt(code_patterns: &str) -> (r: String)
    ensures
        r@ == zero_day_prompt(code_patterns@),
{
    let mut r = String::from_str("\nAnalyze these code patterns for potential 0-day vulnerabilities.\nLook for patterns similar to recent CVEs but not yet documented.\nConsider emerging attack vectors and novel exploitation techniques.\n\nCode patterns:\n");
    r.append(code_patterns);
    r.append("\n\nIdentify:\n1. Patterns similar to known vulnerabilities but in new contexts\n2. Unsafe combinations of safe operations\n3. Race conditions and TOCTOU bugs\n4. Logic flaws that could be exploited\n5. Novel attack surfaces in new APIs/frameworks\n6. Potential for chain exploitation\n7. Side-channel vulnerabilities\n8. Speculative execution vulnerabilities\n\nProvide confidence scores and potential impact assessments.\n");
    r
}

/// The composite query: the five pieces of evidence under the seven-part
/// audit specification.
pub open spec fn audit_prompt(
    dependencies: Seq<char>,
    code_patterns: Seq<char>,
    configurations: Seq<char>,
    cve_data: Seq<char>,
    zero_day_patterns: Seq<char>,
) -> Seq<char> {
    "\nPerform a comprehensive security audit with the following data:\n\nDEPENDENCIES:\n"@ + dependencies + "\n\nCODE PATTERNS:\n"@ + code_patterns + "\n\nCONFIGURATIONS:\n"@ + configurations
        + "\n\nCVE DATA:\n"@ + cve_data + "\n\nPOTENTIAL 0-DAY PATTERNS:\n"@ + zero_day_patterns + "\n\nAUDIT REQUIREMENTS:\n\n1. VULNERABILITY ASSESSMENT:\n   - Map all findings to CVE/CWE identifiers\n   - Calculate CVSS scores\n   - Determine exploit complexity\n   - Check for public exploits\n   - Assess real-world exploitability\n\n2. ZERO-DAY DETECTION:\n   - Identify patterns similar to recent CVEs\n   - Flag unusual code constructs\n   - Detect potential logic bombs\n   - Find backdoor patterns\n   - Identify supply chain risks\n\n3. DEPENDENCY ANALYSIS:\n   - Check all dependencies against CVE database\n   - Identify typosquatting risks\n   - Detect unmaintained packages\n   - License compatibility issues\n   - Transitive dependency risks\n\n4. CODE SECURITY:\n   - OWASP Top 10 compliance\n   - CWE Top 25 dangerous software errors\n   - Language-specific vulnerabilities\n   - Cryptographic weaknesses\n   - Authentication/authorization flaws\n\n5. COMPLIANCE CHECK:\n   - OWASP ASVS compliance\n   - PCI-DSS requirements (if applicable)\n   - GDPR compliance (if applicable)\n   - SOC2 controls\n   - Industry-specific standards\n\n6. SUPPLY CHAIN SECURITY:\n   - Dependency confusion attacks\n   - Malicious package detection\n   - Build pipeline security\n   - Container security (if applicable)\n   - Third-party service risks\n\n7. RECOMMENDATIONS:\n   - Prioritized remediation plan\n   - Quick wins vs long-term fixes\n   - Compensating controls\n   - Security hardening suggestions\n   - Monitoring and detection improvements\n\nOUTPUT FORMAT:\nGenerate a comprehensive JSON SecurityAudit object with all findings,\nrisk scores, and actionable recommendations. Include an executive summary\nsuitable for non-technical stakeholders.\n"@
}

pub fn build_audit_prompt(
    dependencies: &str,
    code_patterns: &str,
    configurations: &str,
    cve_data: &str,
    zero_day_patterns: &str,
) -> (r: String)
    ensures
        r@ == audit_prompt(
            dependencies@,
            code_patterns@,
            configurations@,
            cve_data@,
            zero_day_patterns@,
        ),
{
    let mut r = String::from_str("\nPerform a comprehensive security audit with the following data:\n\nDEPENDENCIES:\n");
    r.append(dependencies);
    r.append("\n\nCODE PATTERNS:\n");
    r.append(code_patterns);
    r.append("\n\nCONFIGURATIONS:\n");
    r.append(configurations);
    r.append("\n\nCVE DATA:\n");
    r.append(cve_data);
    r.append("\n\nPOTENTIAL 0-DAY PATTERNS:\n");
    r.append(zero_day_patterns);
    r.append("\n\nAUDIT REQUIREMENTS:\n\n1. VULNERABILITY ASSESSMENT:\n   - Map all findings to CVE/CWE identifiers\n   - Calculate CVSS scores\n   - Determine exploit complexity\n   - Check for public exploits\n   - Assess real-world exploitability\n\n2. ZERO-DAY DETECTION:\n   - Identify patterns similar to recent CVEs\n   - Flag unusual code constructs\n   - Detect potential logic bombs\n   - Find backdoor patterns\n   - Identify supply chain risks\n\n3. DEPENDENCY ANALYSIS:\n   - Check all dependencies against CVE database\n   - Identify typosquatting risks\n   - Detect unmaintained packages\n   - License compatibility issues\n   - Transitive dependency risks\n\n4. CODE SECURITY:\n   - OWASP Top 10 compliance\n   - CWE Top 25 dangerous software errors\n   - Language-specific vulnerabilities\n   - Cryptographic weaknesses\n   - Authentication/authorization flaws\n\n5. COMPLIANCE CHECK:\n   - OWASP ASVS compliance\n   - PCI-DSS requirements (if applicable)\n   - GDPR compliance (if applicable)\n   - SOC2 controls\n   - Industry-specific standards\n\n6. SUPPLY CHAIN SECURITY:\n   - Dependency confusion attacks\n   - Malicious package detection\n   - Build pipeline security\n   - Container security (if applicable)\n   - Third-party service risks\n\n7. RECOMMENDATIONS:\n   - Prioritized remediation plan\n   - Quick wins vs long-term fixes\n   - Compensating controls\n   - Security hardening suggestions\n   - Monitoring and detection improvements\n\nOUTPUT FORMAT:\nGenerate a comprehensive JSON SecurityAudit object with all findings,\nrisk scores, and actionable recommendations. Include an executive summary\nsuitable for non-technical stakeholders.\n");
    r
}

pub open spec fn threat_intelligence_prompt() -> Seq<char> {
    "Based on current threat landscape (2024), what are the most actively exploited vulnerabilities related to the technologies in this audit? Include recent ransomware campaigns, APT activities, and emerging threats."@
}

/// Asks the backend for the current threat landscape around the audit.
pub fn threat_intelligence_query() -> (r: String)
    ensures
        r@ == threat_intelligence_prompt(),
{
    String::from_str("Based on current threat landscape (2024), what are the most actively exploited vulnerabilities related to the technologies in this audit? Include recent ransomware campaigns, APT activities, and emerging threats.")
}

} // verus!
