use allow_until::args::parse_arguments;
use allow_until::decide::check_version_match;
use allow_until::{
    allow_until, allow_until_derive, Diag, Group, Ident, Literal, Punct, Span, TokenTree,
    VersionConstraint,
};

fn sp(k: usize) -> Span {
    Span { lo: 10 * k, hi: 10 * k + 1 }
}

fn call_site() -> Span {
    sp(0)
}

fn ident(text: &str, k: usize) -> TokenTree {
    TokenTree::Ident(Ident { text: text.to_string(), span: sp(k) })
}

fn punct(ch: char, k: usize) -> TokenTree {
    TokenTree::Punct(Punct { ch, span: sp(k) })
}

fn lit(text: &str, k: usize) -> TokenTree {
    TokenTree::Literal(Literal { text: text.to_string(), span: sp(k) })
}

fn quoted(value: &str, k: usize) -> TokenTree {
    lit(&format!("\"{}\"", value), k)
}

fn group(tokens: Vec<TokenTree>, k: usize) -> TokenTree {
    TokenTree::Group(Group { tokens, span: sp(k) })
}

/// The argument list `version = "<constraint>"`, spans starting at `k`.
fn version_args(constraint: &str, k: usize) -> Vec<TokenTree> {
    vec![ident("version", k), punct('=', k + 1), quoted(constraint, k + 2)]
}

/// The two tokens of `#[allow_until(version = "<constraint>")]`, spans
/// starting at `k`.
fn marker_attr(constraint: &str, k: usize) -> Vec<TokenTree> {
    vec![
        punct('#', k),
        group(
            vec![ident("allow_until", k + 2), group(version_args(constraint, k + 4), k + 3)],
            k + 1,
        ),
    ]
}

/// The anchor an occurrence built by `marker_attr(_, k)` gets: the join of
/// the `#` span, the bracket group's span and the marker identifier's span.
fn marker_anchor(k: usize) -> Span {
    sp(k).join(sp(k + 1)).join(sp(k + 2))
}

fn a_struct_item(k: usize) -> Vec<TokenTree> {
    vec![
        ident("struct", k),
        ident("Bar", k + 1),
        group(
            vec![
                ident("a", k + 3),
                punct(':', k + 4),
                ident("usize", k + 5),
                punct(',', k + 6),
                ident("b", k + 7),
                punct(':', k + 8),
                ident("usize", k + 9),
            ],
            k + 2,
        ),
    ]
}

#[test]
fn test() {
    // #[derive(AllowUntil)] on a struct with one annotated member.
    let mut foo_body = marker_attr(">=1.0.x", 4);
    foo_body.extend(vec![
        ident("a", 9),
        punct(':', 10),
        ident("usize", 11),
        punct(',', 12),
        ident("b", 13),
        punct(':', 14),
        ident("usize", 15),
    ]);
    let foo = vec![ident("struct", 1), ident("Foo", 2), group(foo_body, 3)];
    let diags = allow_until_derive(&foo, Some("0.1.0"), call_site());
    assert!(diags.is_empty());

    // The direct attribute form on a struct.
    let mut args = version_args(">=1.0.x", 1);
    args.push(punct(',', 4));
    args.extend(vec![ident("reason", 5), punct('=', 6), quoted("for fun!", 7)]);
    let item = a_struct_item(20);
    let (out, diag) = allow_until(&args, a_struct_item(20), Some("0.1.0"), call_site());
    assert_eq!(out, item);
    assert!(diag.is_none());

    // #[derive(AllowUntil)] on an enum with unit, tuple and struct variants.
    let mut e_body = marker_attr(">=1.0.x", 4);
    e_body.push(ident("A", 9));
    e_body.push(punct(',', 10));
    e_body.push(ident("B", 11));
    let mut b_field = marker_attr(">=1.0.x", 13);
    b_field.push(ident("usize", 18));
    e_body.push(group(b_field, 12));
    e_body.push(punct(',', 19));
    e_body.push(ident("C", 20));
    let mut c_field = marker_attr(">=1.0.x", 22);
    c_field.extend(vec![ident("bar", 27), punct(':', 28), ident("bool", 29)]);
    e_body.push(group(c_field, 21));
    let foobar = vec![ident("enum", 1), ident("FooBar", 2), group(e_body, 3)];
    let diags = allow_until_derive(&foobar, Some("0.1.0"), call_site());
    assert!(diags.is_empty());
}

#[test]
fn p1_round_trip_unchanged() {
    let args = version_args(">=1.0.0", 1);
    let item = a_struct_item(20);

    // Constraint does not match: no diagnostic, item byte-identical.
    let (out, diag) = allow_until(&args, a_struct_item(20), Some("0.5.0"), call_site());
    assert_eq!(out, item);
    assert!(diag.is_none());

    // Even when it matches, the item itself is passed through unchanged.
    let (out, diag) = allow_until(&args, a_struct_item(20), Some("1.5.0"), call_site());
    assert_eq!(out, item);
    assert!(diag.is_some());
}

#[test]
fn p2_matching_deterministic() {
    let c = VersionConstraint::new(">= 1.0.0").unwrap();
    let d1 = check_version_match(&c, &None, sp(7), Some("2.0.0"));
    let d2 = check_version_match(&c, &None, sp(7), Some("2.0.0"));
    assert_eq!(d1, d2);
    let d1 = d1.unwrap();
    assert_eq!(d1.message, "item not allowed! (version 2.0.0 matches >=1.0.0)");
    assert_eq!(d1.span, sp(7));
    assert!(d1.help.is_none());

    let e1 = check_version_match(&c, &None, sp(7), Some("0.2.0"));
    let e2 = check_version_match(&c, &None, sp(7), Some("0.2.0"));
    assert_eq!(e1, e2);
    assert!(e1.is_none());
}

#[test]
fn p3_last_key_wins() {
    let mut args = version_args(">=3.0.0", 1);
    args.push(punct(',', 4));
    args.extend(version_args(">=2.0.0", 5));
    let parsed = parse_arguments(&args, call_site()).unwrap();
    assert_eq!(parsed.version.text, ">=2.0.0");
    assert!(parsed.reason.is_none());

    // The effective constraint is the second one: 2.5.0 matches it, while
    // the overwritten >=3.0.0 would have stayed silent.
    let (_, diag) = allow_until(&args, vec![], Some("2.5.0"), call_site());
    assert_eq!(
        diag.unwrap().message,
        "item not allowed! (version 2.5.0 matches >=2.0.0)"
    );
}

#[test]
fn p4_missing_version_key() {
    let args = vec![ident("reason", 1), punct('=', 2), quoted("x", 3)];
    let err = parse_arguments(&args, call_site()).unwrap_err();
    assert_eq!(err.message, "missing required `version` argument");
    assert_eq!(err.span, call_site());
    assert!(err.help.is_none());

    // No version decision runs: even a current version that would match every
    // constraint earns only the parse error.
    let (_, diag) = allow_until(&args, vec![], Some("9.9.9"), call_site());
    assert_eq!(diag.unwrap().message, "missing required `version` argument");
}

#[test]
fn p5_short_literal_rejected() {
    let args = vec![ident("version", 1), punct('=', 2), lit("1", 3)];
    let err = parse_arguments(&args, call_site()).unwrap_err();
    assert_eq!(err.message, "expected string literal");
    assert_eq!(err.span, sp(3));
    assert!(err.help.is_none());

    // The reason key unquotes the same way.
    let args = vec![ident("reason", 1), punct('=', 2), lit("x", 3)];
    let err = parse_arguments(&args, call_site()).unwrap_err();
    assert_eq!(err.message, "expected string literal");
}

#[test]
fn p6_nested_locate_one_match() {
    // enum E { #[allow_until(version = ">=1.0.0")] A, B(#[allow_until(version = ">=9.0.0")] usize) }
    let mut body = marker_attr(">=1.0.0", 4);
    body.push(ident("A", 9));
    body.push(punct(',', 10));
    body.push(ident("B", 11));
    let mut b_field = marker_attr(">=9.0.0", 13);
    b_field.push(ident("usize", 18));
    body.push(group(b_field, 12));
    let stream = vec![ident("enum", 1), ident("E", 2), group(body, 3)];

    let diags = allow_until_derive(&stream, Some("2.0.0"), call_site());
    assert_eq!(diags.len(), 1);
    assert_eq!(diags[0].message, "item not allowed! (version 2.0.0 matches >=1.0.0)");
    assert_eq!(diags[0].span, marker_anchor(4));
}

#[test]
fn p7_malformed_aborts_walk() {
    // First attribute has a non-string literal, the second would match.
    let mut body = vec![
        punct('#', 4),
        group(
            vec![
                ident("allow_until", 6),
                group(vec![ident("version", 8), punct('=', 9), lit("1", 10)], 7),
            ],
            5,
        ),
    ];
    body.push(ident("a", 11));
    body.push(punct(',', 12));
    body.extend(marker_attr(">=1.0.0", 13));
    body.push(ident("b", 18));
    let stream = vec![ident("struct", 1), ident("S", 2), group(body, 3)];

    let diags = allow_until_derive(&stream, Some("2.0.0"), call_site());
    assert_eq!(diags.len(), 1);
    assert_eq!(diags[0].message, "expected string literal");
    assert_eq!(diags[0].span, sp(10));
}

#[test]
fn abort_stops_later_groups() {
    // A malformed occurrence in the first top-level group stops the walk
    // before the second group's matching occurrence.
    let mut first = vec![
        punct('#', 4),
        group(
            vec![ident("allow_until", 6), group(vec![ident("version", 8)], 7)],
            5,
        ),
    ];
    first.push(ident("a", 9));
    let second = marker_attr(">=1.0.0", 21);
    let stream = vec![group(first, 3), group(second, 20)];

    let diags = allow_until_derive(&stream, Some("2.0.0"), call_site());
    assert_eq!(diags.len(), 1);
    assert_eq!(diags[0].message, "unexpected end of tokens");
    assert_eq!(diags[0].help.as_deref(), Some("expected `=`"));
}

#[test]
fn p8_no_current_version_no_diag() {
    let args = version_args(">=0.0.0", 1);
    let (_, diag) = allow_until(&args, vec![], None, call_site());
    assert!(diag.is_none());

    let stream = vec![group(marker_attr(">=0.0.0", 4), 3)];
    let diags = allow_until_derive(&stream, None, call_site());
    assert!(diags.is_empty());
}

#[test]
fn parse_expected_ident() {
    let args = vec![quoted("version", 1)];
    let err = parse_arguments(&args, call_site()).unwrap_err();
    assert_eq!(err.message, "expected ident");
    assert_eq!(err.help.as_deref(), Some("valid arguments are `version` and `reason`"));
    assert_eq!(err.span, sp(1));
}

#[test]
fn parse_expected_eq() {
    let args = vec![ident("version", 1), ident("is", 2), quoted("1.0.0", 3)];
    let err = parse_arguments(&args, call_site()).unwrap_err();
    assert_eq!(err.message, "expected `=`");
    assert!(err.help.is_none());
    assert_eq!(err.span, sp(2));
}

#[test]
fn parse_end_of_tokens_expects_eq() {
    let args = vec![ident("version", 1)];
    let err = parse_arguments(&args, call_site()).unwrap_err();
    assert_eq!(err.message, "unexpected end of tokens");
    assert_eq!(err.help.as_deref(), Some("expected `=`"));
    assert_eq!(err.span, call_site());
}

#[test]
fn parse_end_of_tokens_expects_literal() {
    let args = vec![ident("version", 1), punct('=', 2)];
    let err = parse_arguments(&args, call_site()).unwrap_err();
    assert_eq!(err.message, "unexpected end of tokens");
    assert_eq!(err.help.as_deref(), Some("expected literal"));
    assert_eq!(err.span, call_site());
}

#[test]
fn parse_expected_literal() {
    let args = vec![ident("version", 1), punct('=', 2), ident("one", 3)];
    let err = parse_arguments(&args, call_site()).unwrap_err();
    assert_eq!(err.message, "expected literal");
    assert!(err.help.is_none());
    assert_eq!(err.span, sp(3));
}

#[test]
fn parse_invalid_semver() {
    let args = version_args("not a constraint", 1);
    let err = parse_arguments(&args, call_site()).unwrap_err();
    assert_eq!(err.message, "invalid semver version");
    assert!(err.help.is_none());
    assert_eq!(err.span, sp(3));
}

#[test]
fn parse_unknown_argument() {
    let args = vec![ident("cause", 1), punct('=', 2), quoted("x", 3)];
    let err = parse_arguments(&args, call_site()).unwrap_err();
    assert_eq!(err.message, "unknown argument");
    assert_eq!(err.help.as_deref(), Some("valid arguments are `version` and `reason`"));
    // The diagnostic is anchored at the literal, where the dispatch happens.
    assert_eq!(err.span, sp(3));
}

#[test]
fn parse_unexpected_token() {
    let mut args = version_args(">=1.0.0", 1);
    args.push(punct(';', 4));
    let err = parse_arguments(&args, call_site()).unwrap_err();
    assert_eq!(err.message, "unexpected token");
    assert_eq!(err.help.as_deref(), Some("expected end of tokens or `,`"));
    assert_eq!(err.span, sp(4));
}

#[test]
fn parse_trailing_comma_ok() {
    let mut args = version_args(">=1.0.0", 1);
    args.push(punct(',', 4));
    let parsed = parse_arguments(&args, call_site()).unwrap();
    assert_eq!(parsed.version.text, ">=1.0.0");
    assert!(parsed.reason.is_none());
}

#[test]
fn parse_both_keys_any_order() {
    let mut args = vec![ident("reason", 1), punct('=', 2), quoted("old api", 3), punct(',', 4)];
    args.extend(version_args(">=1.2.3", 5));
    let parsed = parse_arguments(&args, call_site()).unwrap();
    assert_eq!(parsed.version.text, ">=1.2.3");
    assert_eq!(parsed.reason.as_deref(), Some("old api"));
}

#[test]
fn parse_empty_value_after_unquoting() {
    // A two-character literal unquotes to the empty string, which semver
    // rejects as a constraint.
    let args = vec![ident("version", 1), punct('=', 2), lit("\"\"", 3)];
    let err = parse_arguments(&args, call_site()).unwrap_err();
    assert_eq!(err.message, "invalid semver version");
}

#[test]
fn message_with_reason() {
    let args_list = {
        let mut a = version_args(">=1.0.0", 1);
        a.push(punct(',', 4));
        a.extend(vec![ident("reason", 5), punct('=', 6), quoted("use the new thing", 7)]);
        a
    };
    let (_, diag) = allow_until(&args_list, vec![], Some("1.2.3"), call_site());
    let diag = diag.unwrap();
    assert_eq!(diag.message, "use the new thing (version 1.2.3 matches >=1.0.0)");
    assert_eq!(diag.span, call_site());
    assert!(diag.help.is_none());
}

#[test]
fn message_canonicalizes_constraint_text() {
    // The constraint is rendered in semver's canonical form, not as written.
    let args = version_args(">=   1.0.0, <2.0.0", 1);
    let (_, diag) = allow_until(&args, vec![], Some("1.5.0"), call_site());
    assert_eq!(
        diag.unwrap().message,
        "item not allowed! (version 1.5.0 matches >=1.0.0, <2.0.0)"
    );
}

#[test]
fn invalid_current_version_reported() {
    let args = version_args(">=1.0.0", 1);
    let (_, diag) = allow_until(&args, vec![], Some("not-a-version"), call_site());
    let diag = diag.unwrap();
    assert_eq!(diag.message, "invalid cargo semver ver");
    assert_eq!(diag.span, call_site());
}

#[test]
fn constraint_new_rejects_garbage() {
    assert!(VersionConstraint::new(">=1.0.0").is_some());
    assert!(VersionConstraint::new("one point oh").is_none());
}

#[test]
fn locate_skips_foreign_attributes() {
    // `#[deprecated(version = 1)]` is not the marker: its arguments are
    // never parsed, so their bad literal earns nothing.
    let body = vec![
        punct('#', 4),
        group(
            vec![
                ident("deprecated", 6),
                group(vec![ident("version", 8), punct('=', 9), lit("1", 10)], 7),
            ],
            5,
        ),
        ident("a", 11),
    ];
    let stream = vec![group(body, 3)];
    let diags = allow_until_derive(&stream, Some("2.0.0"), call_site());
    assert!(diags.is_empty());
}

#[test]
fn locate_hash_before_non_group() {
    // A `#` not followed by a bracketed group is consumed together with the
    // following token, and the walk simply goes on.
    let mut body = vec![punct('#', 4), ident("x", 5)];
    body.extend(marker_attr(">=1.0.0", 6));
    let stream = vec![group(body, 3)];
    let diags = allow_until_derive(&stream, Some("2.0.0"), call_site());
    assert_eq!(diags.len(), 1);
    assert_eq!(diags[0].span, marker_anchor(6));
}

#[test]
fn span_join_covers_both() {
    let a = Span { lo: 5, hi: 9 };
    let b = Span { lo: 2, hi: 7 };
    assert_eq!(a.join(b), Span { lo: 2, hi: 9 });
}
