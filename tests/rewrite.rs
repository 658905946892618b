use warcmutex::emit::{render_stmt, synthesize};
use warcmutex::extract::extract_fields;
use warcmutex::parse::{convert_to_stmt, convert_to_tail};
use warcmutex::rewrite::change_block_method;
use warcmutex::syntax::{
    Block, CallTarget, Data, DelegatingCall, DeriveInput, Field, FnArg, ImplItem, ImplItemFn,
    PatType, PathSegment, Receiver, Referent, ReturnType, Signature, Statement, Type,
};

fn s(t: &str) -> String {
    t.to_string()
}

fn recv(mutable: bool) -> FnArg {
    FnArg::Receiver(Receiver { reference: true, mutability: mutable })
}

fn typed(pat: &str, ty: &str) -> FnArg {
    FnArg::Typed(PatType { pat: s(pat), ty: s(ty) })
}

fn path(segs: &[&str]) -> Type {
    Type::Path(segs.iter().map(|i| PathSegment { ident: s(i), arguments: s("") }).collect())
}

fn method(name: &str, inputs: Vec<FnArg>, output: ReturnType, body: &[&str]) -> ImplItemFn {
    ImplItemFn {
        attrs: vec![],
        vis: s("pub"),
        defaultness: false,
        sig: Signature { ident: s(name), inputs, output },
        block: Block { stmts: body.iter().map(|b| Statement::Source(s(b))).collect() },
    }
}

fn value_struct() -> DeriveInput {
    DeriveInput {
        ident: s("A"),
        data: Data::Struct(vec![Field { ident: Some(s("value")), ty: s("usize") }]),
    }
}

fn rewrite(m: ImplItemFn) -> ImplItemFn {
    match change_block_method(ImplItem::Fn(m), s("A")) {
        ImplItem::Fn(f) => f,
        ImplItem::Other(_) => panic!("a method stays a method"),
    }
}

fn only_call(f: &ImplItemFn) -> DelegatingCall {
    assert_eq!(f.block.stmts.len(), 1);
    match &f.block.stmts[0] {
        Statement::Delegate(c) => c.clone(),
        Statement::Source(_) => panic!("body must be a delegating call"),
    }
}

fn text(f: &ImplItemFn) -> String {
    render_stmt(&f.block.stmts[0], &s("Base"))
}

#[test]
fn impl_i_mut_self_o_default() {
    assert_eq!(extract_fields(&value_struct()).len(), 1);
    let f = rewrite(method("reset", vec![recv(true)], ReturnType::Default, &["self.value = 0;"]));
    let c = only_call(&f);
    assert_eq!(c.target, CallTarget::LockedBase);
    assert!(c.terminated);
    assert!(c.args.is_empty());
    assert_eq!(text(&f), "self.base.lock().unwrap().reset();");
    assert!(synthesize(&f.block.stmts[0], &s("Base")).is_some());
}

#[test]
fn impl_mut_i_self_imput_o_default() {
    let f = rewrite(method(
        "set",
        vec![recv(true), typed("value", "usize")],
        ReturnType::Default,
        &["self.value = value;"],
    ));
    let c = only_call(&f);
    assert_eq!(c.target, CallTarget::LockedBase);
    assert_eq!(c.args, vec![typed("value", "usize")]);
    assert_eq!(f.sig.inputs, vec![recv(true), typed("value", "usize")]);
    assert_eq!(text(&f), "self.base.lock().unwrap().set(value);");
    assert!(synthesize(&f.block.stmts[0], &s("Base")).is_some());
}

#[test]
fn impl_i_ref_self_output() {
    let f = rewrite(method("get", vec![recv(false)], ReturnType::Type(path(&["usize"])), &["self.value"]));
    let c = only_call(&f);
    assert_eq!(c.target, CallTarget::SharedBase);
    assert!(!c.terminated);
    assert_eq!(f.sig.output, ReturnType::Type(path(&["usize"])));
    assert_eq!(text(&f), "self.base.get()");
}

#[test]
fn impl_static_o_self() {
    let f = rewrite(method("new", vec![], ReturnType::Type(path(&["Self"])), &["Self { value: 0 }"]));
    let c = only_call(&f);
    assert_eq!(c.target, CallTarget::WrappedBaseType);
    assert!(!c.terminated);
    assert_eq!(f.sig.output, ReturnType::Type(path(&["Self"])));
    assert_eq!(
        text(&f),
        "Self { base: std::sync::Arc::new(std::sync::Mutex::new(Base::new())) }"
    );
    assert!(synthesize(&f.block.stmts[0], &s("Base")).is_some());
}

#[test]
fn impl_static_input_o_self() {
    let f = rewrite(method(
        "new",
        vec![typed("value", "usize")],
        ReturnType::Type(path(&["Self"])),
        &["Self { value }"],
    ));
    let c = only_call(&f);
    assert_eq!(c.target, CallTarget::WrappedBaseType);
    assert_eq!(c.args, vec![typed("value", "usize")]);
    assert_eq!(
        text(&f),
        "Self { base: std::sync::Arc::new(std::sync::Mutex::new(Base::new(value))) }"
    );
}

#[test]
fn struct_fields_in_order() {
    let fields = vec![
        Field { ident: Some(s("value")), ty: s("usize") },
        Field { ident: Some(s("name")), ty: s("String") },
        Field { ident: Some(s("items")), ty: s("Vec<u8>") },
    ];
    let input = DeriveInput { ident: s("A"), data: Data::Struct(fields.clone()) };
    assert_eq!(extract_fields(&input), fields);
}

#[test]
fn enum_and_union_give_no_fields() {
    let e = DeriveInput { ident: s("E"), data: Data::Enum(vec![s("X"), s("Y")]) };
    assert!(extract_fields(&e).is_empty());
    let u = DeriveInput {
        ident: s("U"),
        data: Data::Union(vec![Field { ident: Some(s("a")), ty: s("u32") }]),
    };
    assert!(extract_fields(&u).is_empty());
}

#[test]
fn unit_struct_gives_no_fields() {
    let unit = DeriveInput { ident: s("A"), data: Data::Struct(vec![]) };
    assert!(extract_fields(&unit).is_empty());
}

#[test]
fn structure_name_return_renamed_to_alias() {
    let f = rewrite(method(
        "with_value",
        vec![typed("v", "usize")],
        ReturnType::Type(path(&["crate", "A"])),
        &[],
    ));
    assert_eq!(f.sig.output, ReturnType::Type(path(&["crate", "Self"])));
    assert_eq!(only_call(&f).target, CallTarget::WrappedBaseType);
}

#[test]
fn static_opaque_return_is_bare_call() {
    let f = rewrite(method(
        "make",
        vec![typed("a", "u8"), typed("b", "u8")],
        ReturnType::Type(path(&["std", "string", "String"])),
        &["String::new()"],
    ));
    let c = only_call(&f);
    assert_eq!(c.target, CallTarget::BaseType);
    assert!(!c.terminated);
    assert_eq!(f.sig.output, ReturnType::Type(path(&["std", "string", "String"])));
    assert_eq!(text(&f), "Base::make(a, b)");
    assert!(synthesize(&f.block.stmts[0], &s("Base")).is_some());
}

#[test]
fn static_without_output_is_terminated_call() {
    let f = rewrite(method("log", vec![typed("value", "usize")], ReturnType::Default, &["x();"]));
    let c = only_call(&f);
    assert_eq!(c.target, CallTarget::BaseType);
    assert!(c.terminated);
    assert_eq!(text(&f), "Base::log(value);");
}

#[test]
fn reference_to_self_is_not_wrapped() {
    let out = ReturnType::Type(Type::Reference {
        mutability: true,
        elem: Referent::Path(vec![PathSegment { ident: s("A"), arguments: s("") }]),
    });
    let f = rewrite(method("me", vec![], out.clone(), &[]));
    assert_eq!(only_call(&f).target, CallTarget::BaseType);
    assert_eq!(f.sig.output, out);
}

#[test]
fn mut_receiver_with_output_is_tail_value() {
    let f = rewrite(method(
        "value_mut",
        vec![recv(true)],
        ReturnType::Type(Type::Other(s("&mut usize"))),
        &["&mut self.value"],
    ));
    let c = only_call(&f);
    assert_eq!(c.target, CallTarget::LockedBase);
    assert!(!c.terminated);
    assert_eq!(text(&f), "self.base.lock().unwrap().value_mut()");
}

#[test]
fn signature_parts_pass_through() {
    let mut m = method("set", vec![recv(true), typed("v", "usize")], ReturnType::Default, &["a;", "b;"]);
    m.attrs = vec![s("#[inline]")];
    m.vis = s("pub(crate)");
    m.defaultness = true;
    let f = rewrite(m.clone());
    assert_eq!(f.attrs, m.attrs);
    assert_eq!(f.vis, m.vis);
    assert!(f.defaultness);
    assert_eq!(f.sig, m.sig);
}

#[test]
fn other_items_pass_through() {
    let item = ImplItem::Other(s("const N: usize = 3;"));
    assert_eq!(change_block_method(item.clone(), s("A")), item);
}

#[test]
fn malformed_text_does_not_parse() {
    assert!(convert_to_stmt(&s("let = ;")).is_none());
    assert!(convert_to_stmt(&s("x(")).is_none());
    assert!(convert_to_stmt(&s("f(a);")).is_some());
    assert!(convert_to_tail(&s("f(a)")).is_some());
    assert!(convert_to_tail(&s("f(a b)")).is_none());
}

#[test]
fn tail_call_with_typed_text_fails_to_synthesize() {
    let bad = Statement::Delegate(DelegatingCall {
        target: CallTarget::BaseType,
        ident: s("new"),
        args: vec![typed("value: usize", "usize")],
        terminated: false,
    });
    assert!(synthesize(&bad, &s("Base")).is_none());
}

#[test]
fn source_statement_renders_as_written() {
    let st = Statement::Source(s("self.value = 0;"));
    assert_eq!(render_stmt(&st, &s("Base")), "self.value = 0;");
}
