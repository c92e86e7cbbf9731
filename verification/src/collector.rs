//! The declaration-collecting tree walk: visit a parsed declaration tree,
//! decide which nodes are public API, classify each, compute its metadata and
//! append one record per discovery, recursing into nested public modules with
//! correct path scoping.

use vstd::prelude::*;
use vstd::string::StringExecFns;
use crate::decl::{Annotation, Decl, EnumDecl, FnDecl, ModDecl, StructDecl, TraitDecl, TraitMethod};
use crate::meta::{has_docstring, is_deprecated, is_public, spec_has_docstring, spec_is_deprecated, spec_is_public};
use crate::record::{APIMetadata, APIMetadataView, ApiKind};
use crate::signature::{get_fn_signature, sig_text};

verus! {

/// The first `n` module segments, joined by `::`.
pub open spec fn join_prefix(segs: Seq<Seq<char>>, n: int) -> Seq<char>
    decreases n,
{
    if n <= 0 {
        Seq::empty()
    } else if n == 1 {
        segs[0]
    } else {
        join_prefix(segs, n - 1) + "::"@ + segs[n - 1]
    }
}

/// All module segments, joined by `::`.
pub open spec fn join_path(segs: Seq<Seq<char>>) -> Seq<char> {
    join_prefix(segs, segs.len() as int)
}

/// A declaration name fully scoped under a module path.
pub open spec fn qual_name(module: Seq<char>, name: Seq<char>) -> Seq<char> {
    module + "::"@ + name
}

/// The record emitted for a public function declaration.
pub open spec fn fn_record(path: Seq<Seq<char>>, f: FnDecl) -> APIMetadataView {
    APIMetadataView {
        api: qual_name(join_path(path), f.sig.ident@),
        module: join_path(path),
        api_type: ApiKind::Function,
        is_async: f.sig.is_async,
        has_docstring: spec_has_docstring(f.attrs@),
        in_all: true,
        is_deprecated: spec_is_deprecated(f.attrs@),
        signature: sig_text(f.sig),
    }
}

/// The record emitted for a public nominal type or interface declaration;
/// `kind_word` preserves which source subkind it was (`struct `, `enum `,
/// `trait `).
pub open spec fn type_record(
    path: Seq<Seq<char>>,
    kind_word: Seq<char>,
    ident: Seq<char>,
    attrs: Seq<Annotation>,
) -> APIMetadataView {
    APIMetadataView {
        api: qual_name(join_path(path), ident),
        module: join_path(path),
        api_type: ApiKind::Class,
        is_async: false,
        has_docstring: spec_has_docstring(attrs),
        in_all: true,
        is_deprecated: spec_is_deprecated(attrs),
        signature: kind_word + ident,
    }
}

/// The record emitted for one member function of a public interface: scoped
/// under the interface's qualified name, with the interface's module path.
pub open spec fn method_record(module: Seq<char>, owner: Seq<char>, m: TraitMethod) -> APIMetadataView {
    APIMetadataView {
        api: qual_name(owner, m.sig.ident@),
        module: module,
        api_type: ApiKind::Method,
        is_async: m.sig.is_async,
        has_docstring: spec_has_docstring(m.attrs@),
        in_all: true,
        is_deprecated: spec_is_deprecated(m.attrs@),
        signature: sig_text(m.sig),
    }
}

/// The records emitted for a public interface declaration: one for the
/// interface itself, then one per member function, in order.
pub open spec fn trait_records(path: Seq<Seq<char>>, t: TraitDecl) -> Seq<APIMetadataView> {
    seq![type_record(path, "trait "@, t.ident@, t.attrs@)] + Seq::new(
        t.items@.len(),
        |j: int| method_record(join_path(path), qual_name(join_path(path), t.ident@), t.items@[j]),
    )
}

/// The records that one traversal of `d` emits, given the module path at the
/// point of declaration.
pub open spec fn collect_decl(d: Decl, path: Seq<Seq<char>>) -> Seq<APIMetadataView>
    decreases d, 0int,
{
    match d {
        Decl::Function(f) => if spec_is_public(f.vis) {
            seq![fn_record(path, f)]
        } else {
            Seq::empty()
        },
        Decl::Struct(s) => if spec_is_public(s.vis) {
            seq![type_record(path, "struct "@, s.ident@, s.attrs@)]
        } else {
            Seq::empty()
        },
        Decl::Enum(e) => if spec_is_public(e.vis) {
            seq![type_record(path, "enum "@, e.ident@, e.attrs@)]
        } else {
            Seq::empty()
        },
        Decl::Trait(t) => if spec_is_public(t.vis) {
            trait_records(path, t)
        } else {
            Seq::empty()
        },
        Decl::Module(m) => if spec_is_public(m.vis) {
            match m.content {
                Some(items) => collect_prefix(items@, path.push(m.ident@), items@.len() as int),
                None => Seq::empty(),
            }
        } else {
            Seq::empty()
        },
        Decl::Other => Seq::empty(),
    }
}

/// The records that the first `n` declarations of `ds` emit, concatenated in
/// lexical order.
pub open spec fn collect_prefix(ds: Seq<Decl>, path: Seq<Seq<char>>, n: int) -> Seq<APIMetadataView>
    decreases ds, n,
        when n <= ds.len()
{
    if n <= 0 {
        Seq::empty()
    } else {
        collect_prefix(ds, path, n - 1) + collect_decl(ds[n - 1], path)
    }
}

/// The records that a whole sequence of declarations emits.
pub open spec fn collect_decls(ds: Seq<Decl>, path: Seq<Seq<char>>) -> Seq<APIMetadataView> {
    collect_prefix(ds, path, ds.len() as int)
}

/// The traversal state: the records collected so far, and the stack of module
/// segments enclosing the current point of the walk, seeded with the library's
/// declared name.
pub struct APICollector {
    pub apis: Vec<APIMetadata>,
    pub module_stack: Vec<String>,
    pub crate_name: String,
}

impl APICollector {
    /// The views of the records collected so far, in discovery order.
    pub open spec fn recs(&self) -> Seq<APIMetadataView> {
        self.apis.deep_view()
    }

    /// The current module segment stack, as character sequences.
    pub open spec fn path_view(&self) -> Seq<Seq<char>> {
        self.module_stack.deep_view()
    }

    /// A fresh collector, with the library's declared name as the root module
    /// segment.
    pub fn new(crate_name: String) -> (c: Self)
        ensures
            c.recs() =~= Seq::<APIMetadataView>::empty(),
            c.path_view() =~= seq![crate_name@],
            c.crate_name@ == crate_name@,
    {
        APICollector { apis: Vec::new(), module_stack: vec![crate_name.clone()], crate_name }
    }

    /// The `::`-joined module nesting at the current point of the walk.
    pub fn current_module(&self) -> (r: String)
        ensures
            r@ == join_path(self.path_view()),
    {
        let mut r = String::new();
        proof {
            assert(r@ =~= join_prefix(self.path_view(), 0));
        }
        let mut i: usize = 0;
        while i < self.module_stack.len()
            invariant
                i <= self.module_stack@.len(),
                r@ == join_prefix(self.path_view(), i as int),
            decreases self.module_stack@.len() - i,
        {
            if i > 0 {
                r.append("::");
            }
            r.append(self.module_stack[i].as_str());
            proof {
                assert(self.path_view()[i as int] == self.module_stack@[i as int]@);
                assert(r@ =~= join_prefix(self.path_view(), i + 1));
            }
            i += 1;
        }
        r
    }

    /// Append one record to the output list.
    pub fn add_api(&mut self, metadata: APIMetadata)
        ensures
            final(self).recs() =~= old(self).recs().push(metadata@),
            final(self).path_view() == old(self).path_view(),
            final(self).crate_name == old(self).crate_name,
    {
        self.apis.push(metadata);
    }

    /// Visit a function declaration: a public one yields one `function`
    /// record.
    pub fn visit_item_fn(&mut self, node: &FnDecl)
        ensures
            final(self).recs() =~= old(self).recs() + collect_decl(
                Decl::Function(*node),
                old(self).path_view(),
            ),
            final(self).path_view() == old(self).path_view(),
            final(self).crate_name == old(self).crate_name,
    {
        if is_public(&node.vis) {
            let module = self.current_module();
            let mut full_name = self.current_module();
            full_name.append("::");
            full_name.append(node.sig.ident.as_str());
            let metadata = APIMetadata {
                api: full_name,
                module,
                api_type: ApiKind::Function,
                is_async: node.sig.is_async,
                has_docstring: has_docstring(&node.attrs),
                in_all: true,
                is_deprecated: is_deprecated(&node.attrs),
                signature: get_fn_signature(&node.sig),
            };
            self.add_api(metadata);
        }
    }

    /// Visit a struct declaration: a public one yields one `class` record.
    pub fn visit_item_struct(&mut self, node: &StructDecl)
        ensures
            final(self).recs() =~= old(self).recs() + collect_decl(
                Decl::Struct(*node),
                old(self).path_view(),
            ),
            final(self).path_view() == old(self).path_view(),
            final(self).crate_name == old(self).crate_name,
    {
        if is_public(&node.vis) {
            let module = self.current_module();
            let mut full_name = self.current_module();
            full_name.append("::");
            full_name.append(node.ident.as_str());
            let mut signature = "struct ".to_owned();
            signature.append(node.ident.as_str());
            let metadata = APIMetadata {
                api: full_name,
                module,
                api_type: ApiKind::Class,
                is_async: false,
                has_docstring: has_docstring(&node.attrs),
                in_all: true,
                is_deprecated: is_deprecated(&node.attrs),
                signature,
            };
            self.add_api(metadata);
        }
    }

    /// Visit an enum declaration: a public one yields one `class` record.
    pub fn visit_item_enum(&mut self, node: &EnumDecl)
        ensures
            final(self).recs() =~= old(self).recs() + collect_decl(
                Decl::Enum(*node),
                old(self).path_view(),
            ),
            final(self).path_view() == old(self).path_view(),
            final(self).crate_name == old(self).crate_name,
    {
        if is_public(&node.vis) {
            let module = self.current_module();
            let mut full_name = self.current_module();
            full_name.append("::");
            full_name.append(node.ident.as_str());
            let mut signature = "enum ".to_owned();
            signature.append(node.ident.as_str());
            let metadata = APIMetadata {
                api: full_name,
                module,
                api_type: ApiKind::Class,
                is_async: false,
                has_docstring: has_docstring(&node.attrs),
                in_all: true,
                is_deprecated: is_deprecated(&node.attrs),
                signature,
            };
            self.add_api(metadata);
        }
    }

    /// Visit an interface declaration: a public one yields one `class` record
    /// and one `method` record per member function.
    pub fn visit_item_trait(&mut self, node: &TraitDecl)
        ensures
            final(self).recs() =~= old(self).recs() + collect_decl(
                Decl::Trait(*node),
                old(self).path_view(),
            ),
            final(self).path_view() == old(self).path_view(),
            final(self).crate_name == old(self).crate_name,
    {
        if is_public(&node.vis) {
            let module = self.current_module();
            let mut full_name = self.current_module();
            full_name.append("::");
            full_name.append(node.ident.as_str());
            let mut signature = "trait ".to_owned();
            signature.append(node.ident.as_str());
            let metadata = APIMetadata {
                api: full_name.clone(),
                module: module.clone(),
                api_type: ApiKind::Class,
                is_async: false,
                has_docstring: has_docstring(&node.attrs),
                in_all: true,
                is_deprecated: is_deprecated(&node.attrs),
                signature,
            };
            self.add_api(metadata);
            let mut i: usize = 0;
            while i < node.items.len()
                invariant
                    i <= node.items@.len(),
                    module@ == join_path(old(self).path_view()),
                    full_name@ == qual_name(join_path(old(self).path_view()), node.ident@),
                    self.recs() =~= old(self).recs() + seq![
                        type_record(old(self).path_view(), "trait "@, node.ident@, node.attrs@),
                    ] + Seq::new(
                        i as nat,
                        |j: int| method_record(module@, full_name@, node.items@[j]),
                    ),
                    self.path_view() == old(self).path_view(),
                    self.crate_name == old(self).crate_name,
                decreases node.items@.len() - i,
            {
                let m = &node.items[i];
                let mut method_full = full_name.clone();
                method_full.append("::");
                method_full.append(m.sig.ident.as_str());
                let metadata = APIMetadata {
                    api: method_full,
                    module: module.clone(),
                    api_type: ApiKind::Method,
                    is_async: m.sig.is_async,
                    has_docstring: has_docstring(&m.attrs),
                    in_all: true,
                    is_deprecated: is_deprecated(&m.attrs),
                    signature: get_fn_signature(&m.sig),
                };
                self.add_api(metadata);
                proof {
                    assert(Seq::new(
                        (i + 1) as nat,
                        |j: int| method_record(module@, full_name@, node.items@[j]),
                    ) =~= Seq::new(
                        i as nat,
                        |j: int| method_record(module@, full_name@, node.items@[j]),
                    ).push(method_record(module@, full_name@, node.items@[i as int])));
                }
                i += 1;
            }
            proof {
                assert(final(self).recs() =~= old(self).recs() + collect_decl(
                    Decl::Trait(*node),
                    old(self).path_view(),
                ));
            }
        }
    }

    /// Visit a nested module declaration: a public one has its name pushed
    /// onto the module path for the duration of the walk of its contents; a
    /// non-public one is skipped whole, together with everything inside it.
    pub fn visit_item_mod(&mut self, node: &ModDecl)
        ensures
            final(self).recs() =~= old(self).recs() + collect_decl(
                Decl::Module(*node),
                old(self).path_view(),
            ),
            final(self).path_view() == old(self).path_view(),
            final(self).crate_name == old(self).crate_name,
        decreases *node, 1int,
    {
        if is_public(&node.vis) {
            self.module_stack.push(node.ident.clone());
            proof {
                assert(self.path_view() =~= old(self).path_view().push(node.ident@));
            }
            if let Some(items) = &node.content {
                let mut i: usize = 0;
                while i < items.len()
                    invariant
                        i <= items@.len(),
                        node.content == Some(*items),
                        self.path_view() =~= old(self).path_view().push(node.ident@),
                        self.recs() =~= old(self).recs() + collect_prefix(
                            items@,
                            old(self).path_view().push(node.ident@),
                            i as int,
                        ),
                        self.crate_name == old(self).crate_name,
                    decreases items@.len() - i,
                {
                    proof {
                        assert(decreases_to!(*node => node.content->Some_0));
                        assert(decreases_to!(node.content->Some_0 => items@[i as int]));
                        assert(decreases_to!(*node => items@[i as int]));
                    }
                    self.visit_decl(&items[i]);
                    i += 1;
                }
            }
            let ghost pre_stack = self.module_stack@;
            let ghost pre_path = self.path_view();
            self.module_stack.pop();
            proof {
                assert(pre_path =~= old(self).path_view().push(node.ident@));
                assert(pre_path.len() == pre_stack.len());
                assert(self.module_stack@ == pre_stack.subrange(0, pre_stack.len() - 1));
                assert forall|k: int|
                    0 <= k < self.path_view().len() implies self.path_view()[k] == old(
                    self,
                ).path_view()[k] by {
                    assert(self.module_stack@[k] == pre_stack[k]);
                    assert(pre_path[k] == pre_stack[k]@);
                }
                assert(self.path_view() =~= old(self).path_view());
                assert(self.recs() =~= old(self).recs() + collect_decl(
                    Decl::Module(*node),
                    old(self).path_view(),
                ));
            }
        }
    }

    /// Visit one declaration node, dispatching on its kind; nodes outside the
    /// taxonomy contribute nothing.
    pub fn visit_decl(&mut self, d: &Decl)
        ensures
            final(self).recs() =~= old(self).recs() + collect_decl(*d, old(self).path_view()),
            final(self).path_view() == old(self).path_view(),
            final(self).crate_name == old(self).crate_name,
        decreases *d, 2int,
    {
        match d {
            Decl::Function(f) => self.visit_item_fn(f),
            Decl::Struct(s) => self.visit_item_struct(s),
            Decl::Enum(e) => self.visit_item_enum(e),
            Decl::Trait(t) => self.visit_item_trait(t),
            Decl::Module(m) => self.visit_item_mod(m),
            Decl::Other => {},
        }
    }

    /// Visit every top-level declaration of one parsed file, in lexical order.
    pub fn visit_file(&mut self, items: &Vec<Decl>)
        ensures
            final(self).recs() =~= old(self).recs() + collect_decls(items@, old(self).path_view()),
            final(self).path_view() == old(self).path_view(),
            final(self).crate_name == old(self).crate_name,
    {
        let mut i: usize = 0;
        while i < items.len()
            invariant
                i <= items@.len(),
                self.recs() =~= old(self).recs() + collect_prefix(
                    items@,
                    old(self).path_view(),
                    i as int,
                ),
                self.path_view() == old(self).path_view(),
                self.crate_name == old(self).crate_name,
            decreases items@.len() - i,
        {
            self.visit_decl(&items[i]);
            i += 1;
        }
    }
}

/// Collect the records of one parsed file: walk its top-level declarations
/// with the library's declared name as the root module segment, and hand back
/// the records in discovery order.
pub fn introspect_decls(crate_name: String, items: &Vec<Decl>) -> (apis: Vec<APIMetadata>)
    ensures
        apis.deep_view() =~= collect_decls(items@, seq![crate_name@]),
{
    let mut collector = APICollector::new(crate_name);
    collector.visit_file(items);
    collector.apis
}

} // verus!
