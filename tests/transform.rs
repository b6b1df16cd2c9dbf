use keywords::{
    builder_ident, Arg, Attr, BuilderRun, FnDecl, FnParam, GenericParam, KeyArgs, KwError,
    KwargsFn, MarkerItem, Pattern, TypeExpr,
};

fn path(name: &str) -> TypeExpr {
    TypeExpr::Path { global: false, segments: vec![name.to_string()], text: name.to_string() }
}

fn param(name: &str, ty: TypeExpr) -> FnParam {
    FnParam::Typed { pat: Pattern::Ident(name.to_string()), ty }
}

fn entry(name: &str, ty: TypeExpr) -> MarkerItem {
    MarkerItem::Param(param(name, ty))
}

fn marker(body: Vec<MarkerItem>) -> FnParam {
    FnParam::Typed {
        pat: Pattern::Wild,
        ty: TypeExpr::Macro {
            global: false,
            segments: vec!["keywords".to_string()],
            body,
            text: "keywords! { .. }".to_string(),
        },
    }
}

fn decl(ident: &str, generics: Vec<GenericParam>, params: Vec<FnParam>) -> FnDecl {
    FnDecl {
        attrs: vec![],
        vis: String::new(),
        constness: false,
        asyncness: false,
        unsafety: false,
        ident: ident.to_string(),
        generics,
        generics_text: String::new(),
        params,
        output: String::new(),
        block: "{ }".to_string(),
    }
}

fn names(args: &[Arg]) -> Vec<String> {
    args.iter().map(|a| a.name.clone()).collect()
}

fn foo() -> FnDecl {
    decl(
        "foo",
        vec![],
        vec![
            param("a", path("u32")),
            param("b", path("u32")),
            marker(vec![
                entry("c", path("u32")),
                MarkerItem::Comma,
                entry("d", path("u32")),
            ]),
        ],
    )
}

#[test]
fn foo_becomes_foo_builder() {
    let f = KwargsFn::parse(foo()).ok().unwrap();
    let b = f.builder();
    assert_eq!(b.name, "FooBuilder");
    let args: Vec<String> = b.args.iter().map(|a| a.name.clone()).collect();
    assert_eq!(args, vec!["a", "b"]);
    let slots: Vec<String> = b.required.iter().map(|s| s.field.name.clone()).collect();
    assert_eq!(slots, vec!["c", "d"]);
    assert!(b.optional.is_empty());
    let bound = BuilderRun::new(&b, vec![1u32, 2])
        .set_required(0, 1)
        .set_required(1, 2)
        .call()
        .ok()
        .unwrap();
    assert_eq!(bound.args, vec![1, 2]);
    assert_eq!(bound.required, vec![1, 2]);
    assert!(bound.optional.is_empty());
}

#[test]
fn stub_returns_the_builder() {
    let mut d = foo();
    d.attrs = vec![
        Attr { path: "keywords".to_string(), text: "#[keywords]".to_string() },
        Attr { path: "inline".to_string(), text: "#[inline]".to_string() },
    ];
    let s = KwargsFn::parse(d).ok().unwrap().stub();
    assert_eq!(s.builder, "FooBuilder");
    assert_eq!(s.ident, "foo");
    assert_eq!(s.attrs.len(), 1);
    assert_eq!(s.attrs[0].text, "#[inline]");
    let args: Vec<String> = s.args.iter().map(|a| format!("{}: {}", a.name, a.ty)).collect();
    assert_eq!(args, vec!["a: u32", "b: u32"]);
}

#[test]
fn builder_name_is_camel_case() {
    assert_eq!(builder_ident(&"foo".to_string()), "FooBuilder");
    assert_eq!(builder_ident(&"make_thing".to_string()), "MakeThingBuilder");
}

#[test]
fn marker_not_last_is_refused() {
    let d = decl(
        "foo",
        vec![],
        vec![marker(vec![entry("c", path("u32"))]), param("a", path("u32"))],
    );
    assert_eq!(KwargsFn::parse(d).err(), Some(KwError::MissingKeywordMarker));
}

#[test]
fn no_parameters_is_refused() {
    let d = decl("foo", vec![], vec![]);
    assert_eq!(KwargsFn::parse(d).err(), Some(KwError::MissingKeywordMarker));
}

#[test]
fn named_marker_is_refused() {
    let named = FnParam::Typed {
        pat: Pattern::Ident("k".to_string()),
        ty: TypeExpr::Macro {
            global: false,
            segments: vec!["keywords".to_string()],
            body: vec![],
            text: "keywords! {}".to_string(),
        },
    };
    let d = decl("foo", vec![], vec![named]);
    assert_eq!(KwargsFn::parse(d).err(), Some(KwError::MissingKeywordMarker));
}

#[test]
fn receiver_parameter_is_refused() {
    let d = decl("foo", vec![], vec![FnParam::Receiver, marker(vec![])]);
    assert_eq!(KwargsFn::parse(d).err(), Some(KwError::UnsupportedArgument));
}

#[test]
fn trailing_comma_is_accepted() {
    let k = KeyArgs::parse(vec![entry("c", path("u32")), MarkerItem::Comma]).unwrap();
    assert_eq!(names(&k.required), vec!["c"]);
    assert!(k.optional.is_empty());
}

#[test]
fn stray_fragment_is_malformed() {
    let d = decl(
        "foo",
        vec![],
        vec![marker(vec![
            entry("c", path("u32")),
            MarkerItem::Comma,
            MarkerItem::Fragment("keywords! {}".to_string()),
        ])],
    );
    assert_eq!(KwargsFn::parse(d).err(), Some(KwError::MalformedKeywordArgument));
}

#[test]
fn entry_without_type_is_malformed() {
    let k = KeyArgs::parse(vec![MarkerItem::Fragment("c".to_string())]);
    assert!(k.is_none());
    let doubled = KeyArgs::parse(vec![entry("c", path("u32")), MarkerItem::Comma, MarkerItem::Comma]);
    assert!(doubled.is_none());
    let wild = KeyArgs::parse(vec![MarkerItem::Param(FnParam::Typed { pat: Pattern::Wild, ty: path("u32") })]);
    assert!(wild.is_none());
}

#[test]
fn optional_and_required_keep_order() {
    let opt = |inner: &str| TypeExpr::Path {
        global: false,
        segments: vec!["Option".to_string()],
        text: format!("Option<{}>", inner),
    };
    let k = KeyArgs::parse(vec![
        entry("a", opt("u8")),
        MarkerItem::Comma,
        entry("b", path("u8")),
        MarkerItem::Comma,
        entry("c", opt("u16")),
        entry("d", path("String")),
        MarkerItem::Comma,
        entry("e", TypeExpr::Path {
            global: false,
            segments: vec!["std".to_string(), "option".to_string(), "Option".to_string()],
            text: "std::option::Option<u8>".to_string(),
        }),
    ])
    .unwrap();
    assert_eq!(names(&k.optional), vec!["a", "c"]);
    assert_eq!(names(&k.required), vec!["b", "d", "e"]);
}

#[test]
fn classification_is_stable() {
    let t = path("Option");
    assert!(t.is_optional());
    assert!(t.is_optional());
    let g = TypeExpr::Path { global: true, segments: vec!["Option".to_string()], text: "::Option".to_string() };
    assert!(!g.is_optional());
    assert!(!g.is_optional());
    assert!(!TypeExpr::Other { text: "&Option<u8>".to_string() }.is_optional());
}

#[test]
fn setter_generic_only_where_used() {
    let t = GenericParam::Type { name: "T".to_string(), text: "T: PartialEq<u32>".to_string() };
    let d = decl(
        "foo",
        vec![t],
        vec![
            param("a", path("u32")),
            marker(vec![entry("c", path("T")), MarkerItem::Comma, entry("d", path("u32"))]),
        ],
    );
    let b = KwargsFn::parse(d).ok().unwrap().builder();
    assert_eq!(b.required[0].generic, Some("T: PartialEq<u32>".to_string()));
    assert_eq!(b.required[1].generic, None);
}

#[test]
fn empty_marker_has_no_setters() {
    let d = decl("bar", vec![], vec![param("a", path("u32")), marker(vec![])]);
    let b = KwargsFn::parse(d).ok().unwrap().builder();
    assert!(b.required.is_empty() && b.optional.is_empty());
    assert_eq!(b.name, "BarBuilder");
    let bound = BuilderRun::new(&b, vec![7u8]).call().ok().unwrap();
    assert_eq!(bound.args, vec![7]);
    assert!(bound.required.is_empty());
}

#[test]
fn missing_required_fails_every_time() {
    let b = KwargsFn::parse(foo()).ok().unwrap().builder();
    for _ in 0..2 {
        assert_eq!(BuilderRun::new(&b, vec![1u32, 2]).set_required(1, 5).call().err(), Some(0));
        assert_eq!(BuilderRun::new(&b, vec![1u32, 2]).set_required(0, 5).call().err(), Some(1));
    }
}

#[test]
fn optional_slots_bind_as_given() {
    let d = decl(
        "baz",
        vec![],
        vec![marker(vec![
            entry("o", path("Option")),
            MarkerItem::Comma,
            entry("p", path("Option")),
            MarkerItem::Comma,
            entry("r", path("i32")),
        ])],
    );
    let b = KwargsFn::parse(d).ok().unwrap().builder();
    let bound = BuilderRun::new(&b, vec![])
        .set_optional(1, -3i32)
        .set_required(0, 4)
        .call()
        .ok()
        .unwrap();
    assert_eq!(bound.optional, vec![None, Some(-3)]);
    assert_eq!(bound.required, vec![4]);
}

#[test]
fn iter_lists_optional_then_required() {
    let k = KeyArgs::parse(vec![
        entry("r", path("u8")),
        MarkerItem::Comma,
        entry("o", path("Option")),
    ])
    .unwrap();
    let all: Vec<String> = k.iter().iter().map(|a| a.name.clone()).collect();
    assert_eq!(all, vec!["o", "r"]);
}

#[test]
fn duplicate_names_are_kept() {
    let k = KeyArgs::parse(vec![
        entry("c", path("u8")),
        MarkerItem::Comma,
        entry("c", path("u16")),
    ])
    .unwrap();
    assert_eq!(names(&k.required), vec!["c", "c"]);
    assert_eq!(k.required[1].ty.text(), "u16");
}
