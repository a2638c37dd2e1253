use mneme::types::Scope;

#[test]
fn scope_containment() {
    let g = Scope::global("acme");
    let u = Scope { tenant: "acme".into(), user: Some("aniket".into()), session: None };
    let s = Scope {
        tenant: "acme".into(),
        user: Some("aniket".into()),
        session: Some("sess-1".into()),
    };
    assert!(g.contains(&u));
    assert!(g.contains(&s));
    assert!(u.contains(&s));
    assert!(!s.contains(&u)); // session cannot read user-wide
    assert!(!u.contains(&g)); // user cannot read global
}

#[test]
fn global_scope_has_only_the_tenant() {
    let g = Scope::global("acme");
    assert_eq!(g.tenant, "acme");
    assert_eq!(g.user, None);
    assert_eq!(g.session, None);
}

#[test]
fn scope_never_crosses_tenants() {
    let a = Scope::global("acme");
    let b = Scope::global("globex");
    let b_user = Scope { tenant: "globex".into(), user: Some("aniket".into()), session: None };
    assert!(!a.contains(&b));
    assert!(!a.contains(&b_user));
    assert!(!b.contains(&a));
}

#[test]
fn scope_contains_itself_and_composes() {
    let g = Scope::global("acme");
    let u = Scope { tenant: "acme".into(), user: Some("aniket".into()), session: None };
    let s = Scope {
        tenant: "acme".into(),
        user: Some("aniket".into()),
        session: Some("sess-1".into()),
    };
    for x in [&g, &u, &s] {
        assert!(x.contains(x));
    }
    assert!(g.contains(&u) && u.contains(&s) && g.contains(&s));
}

#[test]
fn scope_distinguishes_users_and_sessions() {
    let u1 = Scope { tenant: "acme".into(), user: Some("aniket".into()), session: None };
    let u2 = Scope { tenant: "acme".into(), user: Some("bea".into()), session: None };
    let s1 = Scope { tenant: "acme".into(), user: Some("aniket".into()), session: Some("sess-1".into()) };
    let s2 = Scope { tenant: "acme".into(), user: Some("aniket".into()), session: Some("sess-2".into()) };
    assert!(!u1.contains(&u2));
    assert!(!u2.contains(&s1));
    assert!(!s1.contains(&s2));
    assert!(s1.contains(&s1.clone()));
    // A tenant-wide scope ignores the session of what it reads.
    let g_with_session = Scope { tenant: "acme".into(), user: None, session: Some("sess-9".into()) };
    assert!(g_with_session.contains(&s1));
    assert!(g_with_session.contains(&u1));
}
