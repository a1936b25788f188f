//! Bridging of methods that a QObject subclass inherits from its C++ base class.
//!
//! Each inherited method becomes a pair of declarations: the method as Rust
//! callers see it, and the C++ block that declares it. Both are bound to one
//! synthesized C++ symbol, and exactly one of the two carries `unsafe`.
use vstd::prelude::*;

verus! {

/// One parameter of an inherited method: its identifier and its type, as written.
pub struct ParsedFunctionParameter {
    pub ident: String,
    pub ty: String,
}

impl View for ParsedFunctionParameter {
    type V = (Seq<char>, Seq<char>);

    open spec fn view(&self) -> (Seq<char>, Seq<char>) {
        (self.ident@, self.ty@)
    }
}

/// The parameters as identifier/type pairs of characters.
pub open spec fn params_view(ps: Seq<ParsedFunctionParameter>) -> Seq<(Seq<char>, Seq<char>)> {
    ps.map_values(|p: ParsedFunctionParameter| p@)
}

/// The characters of an optional string.
pub open spec fn opt_string_view(o: Option<String>) -> Option<Seq<char>> {
    match o {
        Some(s) => Some(s@),
        None => None,
    }
}

/// A method of the C++ base class that is made callable from Rust.
pub struct ParsedInheritedMethod {
    /// The method's name; unique among the inherited methods of one type.
    pub ident: String,
    /// The parameters after the receiver, in order.
    pub parameters: Vec<ParsedFunctionParameter>,
    /// Whether the receiver is borrowed exclusively (`Pin<&mut T>`) or shared (`&T`).
    pub mutable: bool,
    /// Whether the author declared the method safe to call.
    pub safe: bool,
    /// The return type as written, or `None` for `()`.
    pub return_type: Option<String>,
}

/// What a [`ParsedInheritedMethod`] holds, as plain values.
pub struct MethodView {
    pub ident: Seq<char>,
    pub parameters: Seq<(Seq<char>, Seq<char>)>,
    pub mutable: bool,
    pub safe: bool,
    pub return_type: Option<Seq<char>>,
}

impl View for ParsedInheritedMethod {
    type V = MethodView;

    open spec fn view(&self) -> MethodView {
        MethodView {
            ident: self.ident@,
            parameters: params_view(self.parameters@),
            mutable: self.mutable,
            safe: self.safe,
            return_type: opt_string_view(self.return_type),
        }
    }
}

/// The suffix that marks a C++ symbol as belonging to an inherited method.
pub open spec fn inherit_suffix() -> Seq<char> {
    "CxxQtInherit"@
}

/// The C++ symbol that an inherited method is bound to.
pub open spec fn boundary_symbol(name: Seq<char>) -> Seq<char> {
    name + inherit_suffix()
}

impl ParsedInheritedMethod {
    /// The name of the C++ wrapper that forwards to the inherited method.
    pub fn wrapper_ident(&self) -> (r: String)
        ensures
            r@ == boundary_symbol(self.ident@),
    {
        let mut name = self.ident.clone();
        name.append("CxxQtInherit");
        name
    }
}

/// The name of the QObject whose inherited methods are bridged.
pub struct QObjectName {
    /// How Rust spells the C++ class: the type of the receiver.
    pub cpp_class_rust: String,
}

/// How the receiver is borrowed.
#[derive(Clone, Copy, Debug, PartialEq, Eq, Structural)]
pub enum ReceiverKind {
    /// `self: Pin<&mut T>`: exclusive, non-null and not moved.
    Exclusive,
    /// `self: &T`: shared and non-null.
    Shared,
}

/// The receiver borrow that a method's mutability asks for.
pub open spec fn receiver_kind_of(mutable: bool) -> ReceiverKind {
    if mutable {
        ReceiverKind::Exclusive
    } else {
        ReceiverKind::Shared
    }
}

/// One side of a bridged method.
pub struct Declaration {
    /// Whether this side carries the `unsafe` marker.
    pub unsafe_marker: bool,
    /// The C++ symbol both sides are bound to.
    pub cxx_name: String,
    pub ident: String,
    pub receiver_kind: ReceiverKind,
    /// The type that the receiver refers to.
    pub receiver_ty: String,
    pub parameters: Vec<ParsedFunctionParameter>,
    pub return_type: Option<String>,
}

/// What a [`Declaration`] holds, as plain values.
pub struct DeclarationView {
    pub unsafe_marker: bool,
    pub cxx_name: Seq<char>,
    pub ident: Seq<char>,
    pub receiver_kind: ReceiverKind,
    pub receiver_ty: Seq<char>,
    pub parameters: Seq<(Seq<char>, Seq<char>)>,
    pub return_type: Option<Seq<char>>,
}

impl View for Declaration {
    type V = DeclarationView;

    open spec fn view(&self) -> DeclarationView {
        DeclarationView {
            unsafe_marker: self.unsafe_marker,
            cxx_name: self.cxx_name@,
            ident: self.ident@,
            receiver_kind: self.receiver_kind,
            receiver_ty: self.receiver_ty@,
            parameters: params_view(self.parameters@),
            return_type: opt_string_view(self.return_type),
        }
    }
}

/// The two declarations of one bridged method.
pub struct BoundaryDeclarationPair {
    /// The method that Rust code calls.
    pub native: Declaration,
    /// The C++ block that declares the method.
    pub foreign: Declaration,
}

/// What a [`BoundaryDeclarationPair`] holds, as plain values.
pub struct PairView {
    pub native: DeclarationView,
    pub foreign: DeclarationView,
}

impl View for BoundaryDeclarationPair {
    type V = PairView;

    open spec fn view(&self) -> PairView {
        PairView { native: self.native@, foreign: self.foreign@ }
    }
}

/// A declaration of `m` on the receiver type `qobject`, with the given marker.
pub open spec fn declaration_of(qobject: Seq<char>, m: MethodView, unsafe_marker: bool) -> DeclarationView {
    DeclarationView {
        unsafe_marker,
        cxx_name: boundary_symbol(m.ident),
        ident: m.ident,
        receiver_kind: receiver_kind_of(m.mutable),
        receiver_ty: qobject,
        parameters: m.parameters,
        return_type: m.return_type,
    }
}

/// The Rust-callable side: `unsafe` unless the author declared the method safe.
pub open spec fn native_declaration(qobject: Seq<char>, m: MethodView) -> DeclarationView {
    declaration_of(qobject, m, !m.safe)
}

/// The C++ side: `unsafe` exactly when the method was declared safe, since the
/// boundary itself still has to be vouched for.
pub open spec fn foreign_declaration(qobject: Seq<char>, m: MethodView) -> DeclarationView {
    declaration_of(qobject, m, m.safe)
}

/// The pair of declarations that bridges `m`.
pub open spec fn bridge_of(qobject: Seq<char>, m: MethodView) -> PairView {
    PairView {
        native: native_declaration(qobject, m),
        foreign: foreign_declaration(qobject, m),
    }
}

fn clone_parameters(ps: &Vec<ParsedFunctionParameter>) -> (r: Vec<ParsedFunctionParameter>)
    ensures
        params_view(r@) == params_view(ps@),
{
    let mut r: Vec<ParsedFunctionParameter> = Vec::new();
    let mut i: usize = 0;
    while i < ps.len()
        invariant
            i <= ps@.len(),
            params_view(r@) == params_view(ps@.subrange(0, i as int)),
        decreases ps@.len() - i,
    {
        let p = &ps[i];
        let q = ParsedFunctionParameter { ident: p.ident.clone(), ty: p.ty.clone() };
        proof {
            let f = |p: ParsedFunctionParameter| p@;
            assert(ps@.subrange(0, i + 1) == ps@.subrange(0, i as int).push(ps@[i as int]));
            r@.lemma_push_map_commute(f, q);
            ps@.subrange(0, i as int).lemma_push_map_commute(f, ps@[i as int]);
        }
        r.push(q);
        i = i + 1;
    }
    proof {
        assert(ps@.subrange(0, ps@.len() as int) == ps@);
    }
    r
}

fn clone_return_type(t: &Option<String>) -> (r: Option<String>)
    ensures
        opt_string_view(r) == opt_string_view(*t),
{
    match t {
        Some(s) => Some(s.clone()),
        None => None,
    }
}

impl ParsedInheritedMethod {
    fn declaration(&self, qobject: &String, unsafe_marker: bool) -> (r: Declaration)
        ensures
            r@ == declaration_of(qobject@, self@, unsafe_marker),
    {
        let receiver_kind = if self.mutable {
            ReceiverKind::Exclusive
        } else {
            ReceiverKind::Shared
        };
        Declaration {
            unsafe_marker,
            cxx_name: self.wrapper_ident(),
            ident: self.ident.clone(),
            receiver_kind,
            receiver_ty: qobject.clone(),
            parameters: clone_parameters(&self.parameters),
            return_type: clone_return_type(&self.return_type),
        }
    }

    /// Both declarations of this method on the receiver type `qobject`.
    pub fn bridge(&self, qobject: &String) -> (r: BoundaryDeclarationPair)
        ensures
            r@ == bridge_of(qobject@, self@),
    {
        // The marker sits on the call unless the method is safe, in which
        // case it moves to the C++ block.
        let mut unsafe_block = false;
        let mut unsafe_call = true;
        if self.safe {
            core::mem::swap(&mut unsafe_call, &mut unsafe_block);
        }
        BoundaryDeclarationPair {
            native: self.declaration(qobject, unsafe_call),
            foreign: self.declaration(qobject, unsafe_block),
        }
    }
}

/// What the generator adds to the two modules of a QObject's bridge.
pub struct GeneratedRustQObjectBlocks {
    /// Items of the module that declares the C++ side.
    pub cxx_mod_contents: Vec<BoundaryDeclarationPair>,
    /// Items of the Rust module beside it.
    pub cxx_qt_mod_contents: Vec<BoundaryDeclarationPair>,
}

/// The views of a sequence of declaration pairs.
pub open spec fn pairs_view(ps: Seq<BoundaryDeclarationPair>) -> Seq<PairView> {
    ps.map_values(|p: BoundaryDeclarationPair| p@)
}

/// The views of a sequence of methods.
pub open spec fn methods_view(ms: Seq<ParsedInheritedMethod>) -> Seq<MethodView> {
    ms.map_values(|m: ParsedInheritedMethod| m@)
}

/// The declaration pairs of `methods` on `qobject`, in the order of the methods.
pub open spec fn bridges_of(qobject: Seq<char>, methods: Seq<MethodView>) -> Seq<PairView> {
    methods.map_values(|m: MethodView| bridge_of(qobject, m))
}

/// Bridges each inherited method of `qobject_ident`, keeping their order.
pub fn generate(qobject_ident: &QObjectName, methods: &[ParsedInheritedMethod]) -> (r: GeneratedRustQObjectBlocks)
    ensures
        pairs_view(r.cxx_mod_contents@) == bridges_of(qobject_ident.cpp_class_rust@, methods_view(methods@)),
        r.cxx_qt_mod_contents@.len() == 0,
{
    let qobject_name = &qobject_ident.cpp_class_rust;
    let mut bridges: Vec<BoundaryDeclarationPair> = Vec::new();
    let mut i: usize = 0;
    while i < methods.len()
        invariant
            i <= methods@.len(),
            pairs_view(bridges@) == bridges_of(qobject_name@, methods_view(methods@.subrange(0, i as int))),
        decreases methods@.len() - i,
    {
        let pair = methods[i].bridge(qobject_name);
        proof {
            let prefix = methods@.subrange(0, i as int);
            assert(methods@.subrange(0, i + 1) == prefix.push(methods@[i as int]));
            bridges@.lemma_push_map_commute(|p: BoundaryDeclarationPair| p@, pair);
            prefix.lemma_push_map_commute(|m: ParsedInheritedMethod| m@, methods@[i as int]);
            methods_view(prefix).lemma_push_map_commute(
                |m: MethodView| bridge_of(qobject_name@, m),
                methods@[i as int]@,
            );
        }
        bridges.push(pair);
        i = i + 1;
    }
    proof {
        assert(methods@.subrange(0, methods@.len() as int) == methods@);
    }
    GeneratedRustQObjectBlocks { cxx_mod_contents: bridges, cxx_qt_mod_contents: Vec::new() }
}

/// A method declared safe: the C++ block carries `unsafe` and the
/// Rust-callable declaration does not.
pub proof fn lemma_safe_method_marks_foreign_side(qobject: Seq<char>, m: MethodView)
    requires
        m.safe,
    ensures
        bridge_of(qobject, m).foreign.unsafe_marker,
        !bridge_of(qobject, m).native.unsafe_marker,
{
}

/// A method not declared safe: the Rust-callable declaration carries
/// `unsafe` and the C++ block does not.
pub proof fn lemma_unsafe_method_marks_native_side(qobject: Seq<char>, m: MethodView)
    requires
        !m.safe,
    ensures
        bridge_of(qobject, m).native.unsafe_marker,
        !bridge_of(qobject, m).foreign.unsafe_marker,
{
}

/// A mutable method takes its receiver exclusively in both declarations, any
/// other method takes it shared.
pub proof fn lemma_receiver_follows_mutability(qobject: Seq<char>, m: MethodView)
    ensures
        m.mutable ==> bridge_of(qobject, m).native.receiver_kind == ReceiverKind::Exclusive,
        m.mutable ==> bridge_of(qobject, m).foreign.receiver_kind == ReceiverKind::Exclusive,
        !m.mutable ==> bridge_of(qobject, m).native.receiver_kind == ReceiverKind::Shared,
        !m.mutable ==> bridge_of(qobject, m).foreign.receiver_kind == ReceiverKind::Shared,
{
}

/// The two declarations of a method differ in the `unsafe` marker alone,
/// which exactly one of them carries.
pub proof fn lemma_declarations_agree(qobject: Seq<char>, m: MethodView)
    ensures
        bridge_of(qobject, m).native.unsafe_marker != bridge_of(qobject, m).foreign.unsafe_marker,
        bridge_of(qobject, m).foreign == (DeclarationView {
            unsafe_marker: bridge_of(qobject, m).foreign.unsafe_marker,
            ..bridge_of(qobject, m).native
        }),
{
}

} // verus!
