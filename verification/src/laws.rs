//! Observable laws of the recorded call log: resource creates and
//! deletes stay balanced, and binds of one slot are sequential.

use vstd::prelude::*;
use crate::machine::{GlCall, ResourceKind};

verus! {

/// Whether the call allocates a resource of the kind.
pub open spec fn spec_is_create(c: GlCall, k: ResourceKind) -> bool {
    match k {
        ResourceKind::Program => c is CreateProgram,
        ResourceKind::Shader => c is CreateShader,
        ResourceKind::Buffer => c is GenBuffer,
        ResourceKind::Texture => c is GenTexture,
        ResourceKind::Framebuffer => c is GenFramebuffer,
        ResourceKind::Renderbuffer => c is GenRenderbuffer,
    }
}

/// Whether the call releases a resource of the kind.
pub open spec fn spec_is_delete(c: GlCall, k: ResourceKind) -> bool {
    match k {
        ResourceKind::Program => c is DeleteProgram,
        ResourceKind::Shader => c is DeleteShader,
        ResourceKind::Buffer => c is DeleteBuffer,
        ResourceKind::Texture => c is DeleteTexture,
        ResourceKind::Framebuffer => c is DeleteFramebuffer,
        ResourceKind::Renderbuffer => c is DeleteRenderbuffer,
    }
}

/// How many calls of the log allocate a resource of the kind.
pub open spec fn spec_creates(log: Seq<GlCall>, k: ResourceKind) -> nat
    decreases log.len(),
{
    if log.len() == 0 {
        0nat
    } else {
        spec_creates(log.drop_last(), k) + if spec_is_create(log.last(), k) {
            1nat
        } else {
            0nat
        }
    }
}

/// How many calls of the log release a resource of the kind.
pub open spec fn spec_deletes(log: Seq<GlCall>, k: ResourceKind) -> nat
    decreases log.len(),
{
    if log.len() == 0 {
        0nat
    } else {
        spec_deletes(log.drop_last(), k) + if spec_is_delete(log.last(), k) {
            1nat
        } else {
            0nat
        }
    }
}

/// Whether the call allocates a resource of the kind.
pub fn is_create(c: &GlCall, k: ResourceKind) -> (r: bool)
    ensures
        r == spec_is_create(*c, k),
{
    match k {
        ResourceKind::Program => matches!(c, GlCall::CreateProgram { .. }),
        ResourceKind::Shader => matches!(c, GlCall::CreateShader { .. }),
        ResourceKind::Buffer => matches!(c, GlCall::GenBuffer { .. }),
        ResourceKind::Texture => matches!(c, GlCall::GenTexture { .. }),
        ResourceKind::Framebuffer => matches!(c, GlCall::GenFramebuffer { .. }),
        ResourceKind::Renderbuffer => matches!(c, GlCall::GenRenderbuffer { .. }),
    }
}

/// Whether the call releases a resource of the kind.
pub fn is_delete(c: &GlCall, k: ResourceKind) -> (r: bool)
    ensures
        r == spec_is_delete(*c, k),
{
    match k {
        ResourceKind::Program => matches!(c, GlCall::DeleteProgram { .. }),
        ResourceKind::Shader => matches!(c, GlCall::DeleteShader { .. }),
        ResourceKind::Buffer => matches!(c, GlCall::DeleteBuffer { .. }),
        ResourceKind::Texture => matches!(c, GlCall::DeleteTexture { .. }),
        ResourceKind::Framebuffer => matches!(c, GlCall::DeleteFramebuffer { .. }),
        ResourceKind::Renderbuffer => matches!(c, GlCall::DeleteRenderbuffer { .. }),
    }
}

/// Count the calls of the log that allocate a resource of the kind.
pub fn count_creates(log: &Vec<GlCall>, k: ResourceKind) -> (n: usize)
    ensures
        n == spec_creates(log@, k),
{
    let mut n: usize = 0;
    let mut i: usize = 0;
    while i < log.len()
        invariant
            i <= log@.len(),
            n <= i,
            n == spec_creates(log@.take(i as int), k),
        decreases log@.len() - i,
    {
        if is_create(&log[i], k) {
            n = n + 1;
        }
        proof {
            assert(log@.take(i as int + 1).drop_last() =~= log@.take(i as int));
            assert(log@.take(i as int + 1).last() == log@[i as int]);
        }
        i = i + 1;
    }
    proof {
        assert(log@.take(log@.len() as int) =~= log@);
    }
    n
}

/// Count the calls of the log that release a resource of the kind.
pub fn count_deletes(log: &Vec<GlCall>, k: ResourceKind) -> (n: usize)
    ensures
        n == spec_deletes(log@, k),
{
    let mut n: usize = 0;
    let mut i: usize = 0;
    while i < log.len()
        invariant
            i <= log@.len(),
            n <= i,
            n == spec_deletes(log@.take(i as int), k),
        decreases log@.len() - i,
    {
        if is_delete(&log[i], k) {
            n = n + 1;
        }
        proof {
            assert(log@.take(i as int + 1).drop_last() =~= log@.take(i as int));
            assert(log@.take(i as int + 1).last() == log@[i as int]);
        }
        i = i + 1;
    }
    proof {
        assert(log@.take(log@.len() as int) =~= log@);
    }
    n
}

/// Law: a create followed by the destroy of the handle it returned adds
/// exactly one create and one delete of that kind to the log, so
/// balanced counts stay balanced and the identifier does not leak.  Each
/// handle's `delete` records the very identifier its create returned, and
/// consuming the handle makes a second delete impossible.
pub proof fn lemma_create_destroy_balanced(
    log0: Seq<GlCall>,
    k: ResourceKind,
    c: GlCall,
    d: GlCall,
)
    requires
        spec_is_create(c, k),
        spec_is_delete(d, k),
    ensures
        spec_creates(log0.push(c).push(d), k) == spec_creates(log0, k) + 1,
        spec_deletes(log0.push(c).push(d), k) == spec_deletes(log0, k) + 1,
        spec_creates(log0, k) == spec_deletes(log0, k) ==> spec_creates(log0.push(c).push(d), k)
            == spec_deletes(log0.push(c).push(d), k),
{
    let log1 = log0.push(c);
    let log2 = log1.push(d);
    assert(log2.drop_last() =~= log1);
    assert(log1.drop_last() =~= log0);
    match k {
        ResourceKind::Program => {
            assert(!spec_is_delete(c, k));
            assert(!spec_is_create(d, k));
        },
        ResourceKind::Shader => {
            assert(!spec_is_delete(c, k));
            assert(!spec_is_create(d, k));
        },
        ResourceKind::Buffer => {
            assert(!spec_is_delete(c, k));
            assert(!spec_is_create(d, k));
        },
        ResourceKind::Texture => {
            assert(!spec_is_delete(c, k));
            assert(!spec_is_create(d, k));
        },
        ResourceKind::Framebuffer => {
            assert(!spec_is_delete(c, k));
            assert(!spec_is_create(d, k));
        },
        ResourceKind::Renderbuffer => {
            assert(!spec_is_delete(c, k));
            assert(!spec_is_create(d, k));
        },
    }
    assert(spec_creates(log2, k) == spec_creates(log1, k));
    assert(spec_creates(log1, k) == spec_creates(log0, k) + 1);
    assert(spec_deletes(log2, k) == spec_deletes(log1, k) + 1);
    assert(spec_deletes(log1, k) == spec_deletes(log0, k));
}

/// Law: two binds of one slot are observably sequential.  A binder hands
/// out one binding at a time — `bind` demands a free binder, engages it,
/// and only releasing the binding frees it again — so whatever calls the
/// first binding performed stand in the log strictly between the first
/// bind's entry and the second's: there is no overlap window.
pub proof fn lemma_sequential_binds(
    log0: Seq<GlCall>,
    first: GlCall,
    between: Seq<GlCall>,
    second: GlCall,
)
    ensures
        (log0 + seq![first] + between + seq![second]).len() == log0.len() + between.len() + 2,
        (log0 + seq![first] + between + seq![second])[log0.len() as int] == first,
        (log0 + seq![first] + between + seq![second]).last() == second,
        forall|j: int|
            log0.len() < j < log0.len() + 1 + between.len() ==> (log0 + seq![first] + between
                + seq![second])[j] == between[j - log0.len() - 1],
{
    let log = log0 + seq![first] + between + seq![second];
    assert(log[log0.len() as int] == first);
    assert(log.last() == second);
}

} // verus!
