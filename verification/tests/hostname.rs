use ens_gateway::hostname::{SuffixRewrite, DOMAIN_SUFFIX, GATEWAY_SUFFIX};

fn rule(gateway: &str, domain: &str) -> SuffixRewrite {
    SuffixRewrite { gateway_suffix: String::from(gateway), domain_suffix: String::from(domain) }
}

#[test]
fn standard_rule_has_the_default_suffixes() {
    let standard = SuffixRewrite::standard();
    assert_eq!(standard.gateway_suffix, ".eth-gw.uk.to");
    assert_eq!(standard.domain_suffix, ".eth");
    assert_eq!(GATEWAY_SUFFIX, ".eth-gw.uk.to");
    assert_eq!(DOMAIN_SUFFIX, ".eth");
}

#[test]
fn gateway_suffix_is_replaced() {
    assert_eq!(SuffixRewrite::standard().normalize("foo.eth-gw.uk.to"), "foo.eth");
}

#[test]
fn subdomains_are_kept() {
    assert_eq!(SuffixRewrite::standard().normalize("a.b.foo.eth-gw.uk.to"), "a.b.foo.eth");
}

#[test]
fn other_hosts_stay_as_they_are() {
    assert_eq!(SuffixRewrite::standard().normalize("example.com"), "example.com");
    assert_eq!(SuffixRewrite::standard().normalize("foo.eth"), "foo.eth");
    assert_eq!(SuffixRewrite::standard().normalize(""), "");
}

#[test]
fn suffix_in_the_middle_is_not_replaced() {
    assert_eq!(
        SuffixRewrite::standard().normalize("foo.eth-gw.uk.to.example.com"),
        "foo.eth-gw.uk.to.example.com"
    );
}

#[test]
fn only_the_last_occurrence_is_replaced() {
    assert_eq!(
        SuffixRewrite::standard().normalize("x.eth-gw.uk.to.eth-gw.uk.to"),
        "x.eth-gw.uk.to.eth"
    );
}

#[test]
fn host_that_is_the_suffix_becomes_the_domain() {
    assert_eq!(SuffixRewrite::standard().normalize(".eth-gw.uk.to"), ".eth");
}

#[test]
fn host_shorter_than_the_suffix_stays() {
    assert_eq!(SuffixRewrite::standard().normalize("uk.to"), "uk.to");
}

#[test]
fn other_rules_work_the_same_way() {
    let custom = rule(".gw.example", ".xyz");
    assert_eq!(custom.normalize("name.gw.example"), "name.xyz");
    assert_eq!(custom.normalize("name.eth-gw.uk.to"), "name.eth-gw.uk.to");
}

#[test]
fn empty_gateway_suffix_appends_the_domain() {
    assert_eq!(rule("", ".eth").normalize("foo"), "foo.eth");
}

#[test]
fn characters_outside_ascii_are_counted_as_characters() {
    let custom = rule(".gäte", ".é");
    assert_eq!(custom.normalize("nämé.gäte"), "nämé.é");
    assert_eq!(custom.normalize("nämé.gate"), "nämé.gate");
}
