//! Laws of the traversal: what holds of every record list that one walk of a
//! declaration tree emits.

use vstd::prelude::*;
use crate::collector::{collect_decl, collect_prefix, join_path, qual_name, trait_records, type_record};
use crate::decl::{Decl, ModDecl, TraitDecl};
use crate::meta::spec_is_public;
use crate::record::APIMetadataView;

verus! {

/// Law: a module that is not externally visible contributes no records at all
/// — nothing declared inside it appears, even a declaration individually
/// marked public, since accessibility is the conjunction of all enclosing
/// module visibilities.
pub proof fn lemma_private_module_hidden(m: ModDecl, path: Seq<Seq<char>>)
    requires
        !spec_is_public(m.vis),
    ensures
        collect_decl(Decl::Module(m), path) == Seq::<APIMetadataView>::empty(),
{
}

/// Law: a public interface declaration with N member functions yields exactly
/// one `class` record followed by N `method` records, and the interface's
/// qualified name is a prefix of every method record's qualified name.
pub proof fn lemma_trait_record_shape(t: TraitDecl, path: Seq<Seq<char>>)
    requires
        spec_is_public(t.vis),
    ensures
        collect_decl(Decl::Trait(t), path).len() == 1 + t.items@.len(),
        collect_decl(Decl::Trait(t), path)[0] == type_record(
            path,
            "trait "@,
            t.ident@,
            t.attrs@,
        ),
        forall|j: int|
            0 <= j < t.items@.len() ==> {
                &&& (#[trigger] collect_decl(Decl::Trait(t), path)[j + 1]).api_type is Method
                &&& collect_decl(Decl::Trait(t), path)[j + 1].api == qual_name(
                    collect_decl(Decl::Trait(t), path)[0].api,
                    t.items@[j].sig.ident@,
                )
                &&& collect_decl(Decl::Trait(t), path)[0].api.is_prefix_of(
                    collect_decl(Decl::Trait(t), path)[j + 1].api,
                )
            },
{
    let recs = collect_decl(Decl::Trait(t), path);
    let owner = qual_name(join_path(path), t.ident@);
    assert(recs == trait_records(path, t));
    assert forall|j: int| 0 <= j < t.items@.len() implies {
        &&& (#[trigger] collect_decl(Decl::Trait(t), path)[j + 1]).api_type is Method
        &&& collect_decl(Decl::Trait(t), path)[j + 1].api == qual_name(
            collect_decl(Decl::Trait(t), path)[0].api,
            t.items@[j].sig.ident@,
        )
        &&& collect_decl(Decl::Trait(t), path)[0].api.is_prefix_of(
            collect_decl(Decl::Trait(t), path)[j + 1].api,
        )
    } by {
        assert(recs[j + 1].api == owner + "::"@ + t.items@[j].sig.ident@);
        assert((owner + "::"@ + t.items@[j].sig.ident@).subrange(0, owner.len() as int) =~= owner);
    }
}

/// Law: the records of one traversal are a function of the declaration tree
/// and the starting module path alone, so re-running the collector on the
/// identical input tree reproduces the identical record list.
pub proof fn lemma_traversal_deterministic(d: Decl, path1: Seq<Seq<char>>, path2: Seq<Seq<char>>)
    requires
        path1 == path2,
    ensures
        collect_decl(d, path1) == collect_decl(d, path2),
{
}

/// Every record of the list is marked externally visible and has a non-empty
/// qualified name, of which its module path is a proper prefix.
pub open spec fn records_wf(recs: Seq<APIMetadataView>) -> bool {
    forall|i: int|
        0 <= i < recs.len() ==> {
            &&& (#[trigger] recs[i]).api.len() > 0
            &&& recs[i].module.is_prefix_of(recs[i].api)
            &&& recs[i].module.len() < recs[i].api.len()
            &&& recs[i].in_all
        }
}

/// Law: every record that a traversal emits is marked externally visible and
/// has a non-empty qualified name, of which the record's module path is a
/// proper prefix.
pub proof fn lemma_records_wf(d: Decl, path: Seq<Seq<char>>)
    ensures
        records_wf(collect_decl(d, path)),
    decreases d, 1int,
{
    reveal_strlit("::");
    let recs = collect_decl(d, path);
    match d {
        Decl::Trait(t) => {
            if spec_is_public(t.vis) {
                let owner = qual_name(join_path(path), t.ident@);
                assert forall|i: int| 0 <= i < recs.len() implies {
                    &&& (#[trigger] recs[i]).api.len() > 0
                    &&& recs[i].module.is_prefix_of(recs[i].api)
                    &&& recs[i].module.len() < recs[i].api.len()
                    &&& recs[i].in_all
                } by {
                    let module = join_path(path);
                    if i == 0 {
                        assert(recs[0].api.subrange(0, module.len() as int) =~= module);
                    } else {
                        assert(recs[i].api == owner + "::"@ + t.items@[i - 1].sig.ident@);
                        assert(recs[i].api.subrange(0, module.len() as int) =~= module);
                    }
                }
            }
        },
        Decl::Module(m) => {
            if spec_is_public(m.vis) {
                match m.content {
                    Some(items) => {
                        assert(decreases_to!(d => m.content->Some_0));
                        lemma_records_wf_prefix(
                            items@,
                            path.push(m.ident@),
                            items@.len() as int,
                        );
                    },
                    None => {},
                }
            }
        },
        Decl::Function(f) => {
            if spec_is_public(f.vis) {
                let module = join_path(path);
                assert(recs[0].api.subrange(0, module.len() as int) =~= module);
            }
        },
        Decl::Struct(s) => {
            if spec_is_public(s.vis) {
                let module = join_path(path);
                assert(recs[0].api.subrange(0, module.len() as int) =~= module);
            }
        },
        Decl::Enum(e) => {
            if spec_is_public(e.vis) {
                let module = join_path(path);
                assert(recs[0].api.subrange(0, module.len() as int) =~= module);
            }
        },
        Decl::Other => {},
    }
}

/// Law: every record that the traversal of a whole file emits is well-formed
/// in the sense of `records_wf`.
pub proof fn lemma_file_records_wf(ds: Seq<Decl>, path: Seq<Seq<char>>)
    ensures
        records_wf(crate::collector::collect_decls(ds, path)),
{
    lemma_records_wf_prefix(ds, path, ds.len() as int);
}

proof fn lemma_records_wf_prefix(ds: Seq<Decl>, path: Seq<Seq<char>>, n: int)
    requires
        n <= ds.len(),
    ensures
        records_wf(collect_prefix(ds, path, n)),
    decreases ds, n,
{
    if n > 0 {
        lemma_records_wf_prefix(ds, path, n - 1);
        lemma_records_wf(ds[n - 1], path);
        let left = collect_prefix(ds, path, n - 1);
        let right = collect_decl(ds[n - 1], path);
        assert forall|i: int| 0 <= i < (left + right).len() implies {
            &&& ((left + right)[i]).api.len() > 0
            &&& (left + right)[i].module.is_prefix_of((left + right)[i].api)
            &&& (left + right)[i].module.len() < (left + right)[i].api.len()
            &&& (left + right)[i].in_all
        } by {
            if i < left.len() {
                assert((left + right)[i] == left[i]);
            } else {
                assert((left + right)[i] == right[i - left.len()]);
            }
        }
    }
}

} // verus!
