use load_feedback::resolver::resolve;

#[test]
fn resolves_namespace_then_service() {
    assert_eq!(resolve("ngsa.ngsa-memory.svc.cluster.local"), "ngsa-memory/ngsa");
}

#[test]
fn single_token_has_no_key() {
    assert_eq!(resolve("single-token"), "");
}

#[test]
fn empty_host_has_no_key() {
    assert_eq!(resolve(""), "");
}

#[test]
fn two_tokens_are_enough() {
    assert_eq!(resolve("service.namespace"), "namespace/service");
}

#[test]
fn later_tokens_are_ignored() {
    assert_eq!(resolve("a.b.c.d.e"), "b/a");
}

#[test]
fn empty_tokens_are_kept() {
    assert_eq!(resolve(".b"), "b/");
    assert_eq!(resolve("a."), "/a");
    assert_eq!(resolve("."), "/");
    assert_eq!(resolve("a..c"), "/a");
}

#[test]
fn non_ascii_tokens_are_kept_whole() {
    assert_eq!(resolve("dienst.namensraum-\u{e4}\u{f6}.svc"), "namensraum-\u{e4}\u{f6}/dienst");
    assert_eq!(resolve("\u{1f600}.\u{4e2d}\u{6587}"), "\u{4e2d}\u{6587}/\u{1f600}");
}

#[test]
fn resolve_agrees_with_a_split_on_dots() {
    let hosts = [
        "ngsa.ngsa-memory.svc.cluster.local",
        "x.y",
        "x",
        "",
        "..",
        "a.b.",
        ".a.b",
        "one.two.three",
    ];
    for host in hosts {
        let tokens: Vec<&str> = host.split('.').collect();
        let expected = if tokens.len() >= 2 {
            format!("{}/{}", tokens[1], tokens[0])
        } else {
            String::new()
        };
        assert_eq!(resolve(host), expected);
    }
}
