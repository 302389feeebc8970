//! Vertex and index buffers, and the attribute binder that validates a
//! vertex record's field set against a program's registered attributes
//! before any per-field pointer call is issued.

use vstd::prelude::*;
use core::marker::PhantomData;
use crate::buffer::{ArrayBufferBinding, Buffer, ElementArrayBufferBinding};
use crate::context::Context;
use crate::framebuffer::FramebufferBinding;
use crate::index_data::{index_size, spec_index_size, IndexDatum};
use crate::machine::{same_but_log, same_config, BufferTarget, GlCall, GlMachine};
use crate::program::ProgramAttrib;
use crate::text::str_eq;
use crate::types::{BufferDataUsage, DrawingMode};
use crate::vertex_data::{VertexAttribute, VertexData};

verus! {

/// The failure of registering one attribute name.
#[derive(Debug)]
pub enum AttribAddError {
    /// The name was already registered; the first registration is kept.
    DuplicateAttrib(String),
}

/// The failure of validating a vertex record's field set: the fields the
/// record declares but the binder does not know, and the names the binder
/// registered that the record does not declare.
#[derive(Debug)]
pub struct AttribError {
    missing_attribs: Vec<String>,
    unknown_attribs: Vec<String>,
}

impl AttribError {
    /// The record fields the binder has no registration for, in record
    /// declaration order.
    pub closed spec fn spec_missing(&self) -> Seq<Seq<char>> {
        self.missing_attribs@.map_values(|s: String| s@)
    }

    /// The registered names the record does not declare, in registration
    /// order.
    pub closed spec fn spec_unknown(&self) -> Seq<Seq<char>> {
        self.unknown_attribs@.map_values(|s: String| s@)
    }

    /// Read the record fields the binder has no registration for.
    pub fn missing_attribs(&self) -> (r: &Vec<String>)
        ensures
            r@.map_values(|s: String| s@) == self.spec_missing(),
    {
        &self.missing_attribs
    }

    /// Read the registered names the record does not declare.
    pub fn unknown_attribs(&self) -> (r: &Vec<String>)
        ensures
            r@.map_values(|s: String| s@) == self.spec_unknown(),
    {
        &self.unknown_attribs
    }
}

/// A mapping from vertex-field name to program-attribute location, built
/// incrementally.  Duplicate names are rejected and the first
/// registration is kept.  Iteration order is registration order, so the
/// calls the binder issues are deterministic.
#[derive(Debug)]
pub struct AttribBinder {
    attribs: Vec<(String, ProgramAttrib)>,
}

/// Whether any of the fields declares the name.
pub open spec fn spec_fields_contain(fields: Seq<VertexAttribute>, name: Seq<char>) -> bool {
    exists|i: int| 0 <= i < fields.len() && (#[trigger] fields[i]).name@ == name
}

impl AttribBinder {
    /// The registered pairs, in registration order.
    pub closed spec fn spec_attribs(&self) -> Seq<(String, ProgramAttrib)> {
        self.attribs@
    }

    /// Whether the name is registered.
    pub open spec fn spec_contains_name(&self, name: Seq<char>) -> bool {
        exists|i: int|
            0 <= i < self.spec_attribs().len() && (#[trigger] self.spec_attribs()[i]).0@ == name
    }

    /// The location registered under the name, searching from the front.
    pub open spec fn spec_lookup(&self, name: Seq<char>) -> Option<ProgramAttrib>
        decreases self.spec_attribs().len(),
    {
        spec_assoc_lookup(self.spec_attribs(), name)
    }

    /// The location registered under the name, or a placeholder when the
    /// name is not registered.
    pub open spec fn spec_index_of(&self, name: Seq<char>) -> u32 {
        match self.spec_lookup(name) {
            Some(a) => a.gl_index,
            None => 0u32,
        }
    }

    /// No name is registered twice.
    pub open spec fn wf(&self) -> bool {
        forall|i: int, j: int|
            0 <= i < j < self.spec_attribs().len() ==> (#[trigger] self.spec_attribs()[i]).0@ != (
            #[trigger] self.spec_attribs()[j]).0@
    }

    /// The record fields the binder has no registration for, in record
    /// declaration order.
    pub open spec fn spec_missing_of(&self, fields: Seq<VertexAttribute>) -> Seq<Seq<char>>
        decreases fields.len(),
    {
        if fields.len() == 0 {
            Seq::<Seq<char>>::empty()
        } else {
            let rest = self.spec_missing_of(fields.drop_last());
            if self.spec_contains_name(fields.last().name@) {
                rest
            } else {
                rest.push(fields.last().name@)
            }
        }
    }

    /// The registered names the record does not declare, in registration
    /// order.
    pub open spec fn spec_unknown_of(&self, fields: Seq<VertexAttribute>) -> Seq<Seq<char>> {
        spec_unknown_in(self.spec_attribs(), fields)
    }

    /// Whether the record's field set matches the registered set exactly.
    pub open spec fn spec_valid_for(&self, fields: Seq<VertexAttribute>) -> bool {
        self.spec_missing_of(fields).len() == 0 && self.spec_unknown_of(fields).len() == 0
    }

    /// The enable call each field turns into, in declaration order.
    pub open spec fn spec_enable_calls(&self, fields: Seq<VertexAttribute>) -> Seq<GlCall>
        decreases fields.len(),
    {
        if fields.len() == 0 {
            Seq::<GlCall>::empty()
        } else {
            self.spec_enable_calls(fields.drop_last()).push(
                GlCall::EnableVertexAttribArray {
                    index: self.spec_index_of(fields.last().name@),
                },
            )
        }
    }

    /// The pointer call each field turns into, in declaration order.
    pub open spec fn spec_pointer_calls(&self, fields: Seq<VertexAttribute>) -> Seq<GlCall>
        decreases fields.len(),
    {
        if fields.len() == 0 {
            Seq::<GlCall>::empty()
        } else {
            let f = fields.last();
            self.spec_pointer_calls(fields.drop_last()).push(
                GlCall::VertexAttribPointer {
                    index: self.spec_index_of(f.name@),
                    components: f.ty.components,
                    data: f.ty.data,
                    normalize: f.ty.normalize,
                    stride: f.stride,
                    offset: f.offset,
                },
            )
        }
    }

    /// Read the registered pairs, in registration order.
    pub fn attribs(&self) -> (r: &Vec<(String, ProgramAttrib)>)
        ensures
            r@ == self.spec_attribs(),
    {
        &self.attribs
    }

    /// An empty binder.
    pub fn new() -> (b: AttribBinder)
        ensures
            b.spec_attribs() == Seq::<(String, ProgramAttrib)>::empty(),
            b.wf(),
    {
        AttribBinder { attribs: Vec::new() }
    }

    /// Whether the name is registered.
    fn contains_name(&self, name: &str) -> (r: bool)
        ensures
            r == self.spec_contains_name(name@),
    {
        let mut i: usize = 0;
        while i < self.attribs.len()
            invariant
                i <= self.spec_attribs().len(),
                forall|j: int| 0 <= j < i ==> (#[trigger] self.spec_attribs()[j]).0@ != name@,
            decreases self.spec_attribs().len() - i,
        {
            let pair = &self.attribs[i];
            if str_eq(pair.0.as_str(), name) {
                return true;
            }
            i = i + 1;
        }
        false
    }

    /// The location registered under the name; the caller knows the name
    /// is registered.
    fn lookup(&self, name: &str) -> (r: ProgramAttrib)
        requires
            self.spec_contains_name(name@),
        ensures
            Some(r) == self.spec_lookup(name@),
    {
        proof {
            assert(self.spec_attribs().skip(0) =~= self.spec_attribs());
        }
        let mut i: usize = 0;
        while i < self.attribs.len()
            invariant
                i <= self.spec_attribs().len(),
                self.spec_contains_name(name@),
                spec_assoc_lookup(self.spec_attribs(), name@) == spec_assoc_lookup(
                    self.spec_attribs().skip(i as int),
                    name@,
                ),
                forall|j: int| 0 <= j < i ==> (#[trigger] self.spec_attribs()[j]).0@ != name@,
            decreases self.spec_attribs().len() - i,
        {
            proof {
                assert(self.spec_attribs().skip(i as int)[0] == self.spec_attribs()[i as int]);
            }
            let pair = &self.attribs[i];
            if str_eq(pair.0.as_str(), name) {
                return pair.1;
            }
            proof {
                assert(self.spec_attribs().skip(i as int).drop_first() =~= self.spec_attribs().skip(
                    i as int + 1,
                ));
            }
            i = i + 1;
        }
        proof {
            let k = choose|k: int|
                0 <= k < self.spec_attribs().len() && (#[trigger] self.spec_attribs()[k]).0@
                    == name@;
            assert(false);
        }
        ProgramAttrib { gl_index: 0 }
    }

    /// Register a field name at a program-attribute location.  A name
    /// already registered is rejected with `DuplicateAttrib`, and the
    /// first registration is kept unchanged.
    pub fn add(&mut self, name: &str, attrib: ProgramAttrib) -> (r: Result<(), AttribAddError>)
        ensures
            r is Ok <==> !old(self).spec_contains_name(name@),
            old(self).spec_contains_name(name@) ==> {
                &&& *final(self) == *old(self)
                &&& (r matches Err(AttribAddError::DuplicateAttrib(n)) ==> n@ == name@)
                &&& (r matches Err(e) ==> e is DuplicateAttrib)
            },
            !old(self).spec_contains_name(name@) ==> {
                &&& final(self).spec_attribs().len() == old(self).spec_attribs().len() + 1
                &&& final(self).spec_attribs().take(old(self).spec_attribs().len() as int) == old(
                    self,
                ).spec_attribs()
                &&& final(self).spec_attribs().last().0@ == name@
                &&& final(self).spec_attribs().last().1 == attrib
            },
            old(self).wf() ==> final(self).wf(),
    {
        if self.contains_name(name) {
            Err(AttribAddError::DuplicateAttrib(String::from_str(name)))
        } else {
            self.attribs.push((String::from_str(name), attrib));
            proof {
                assert(self.spec_attribs().take(old(self).spec_attribs().len() as int) =~= old(
                    self,
                ).spec_attribs());
                assert forall|i: int, j: int|
                    0 <= i < j < self.spec_attribs().len() && old(self).wf() implies (
                #[trigger] self.spec_attribs()[i]).0@ != (#[trigger] self.spec_attribs()[j]).0@ by {
                    if j < self.spec_attribs().len() - 1 {
                        assert(old(self).spec_attribs()[i] == self.spec_attribs()[i]);
                    } else {
                        assert(!old(self).spec_contains_name(name@));
                    }
                }
            }
            Ok(())
        }
    }

    /// Validate a vertex record's declared fields against the registered
    /// set: success demands that no field is unregistered and no
    /// registered name is undeclared.  The reported name lists are in
    /// declaration order and registration order, so they are
    /// deterministic.
    pub fn validate(&self, fields: &Vec<VertexAttribute>) -> (r: Result<(), AttribError>)
        ensures
            r is Ok <==> self.spec_valid_for(fields@),
            r matches Err(e) ==> {
                &&& e.spec_missing() == self.spec_missing_of(fields@)
                &&& e.spec_unknown() == self.spec_unknown_of(fields@)
            },
    {
        let mut missing: Vec<String> = Vec::new();
        let mut i: usize = 0;
        while i < fields.len()
            invariant
                i <= fields@.len(),
                missing@.map_values(|s: String| s@) == self.spec_missing_of(
                    fields@.take(i as int),
                ),
            decreases fields@.len() - i,
        {
            let f = &fields[i];
            if !self.contains_name(f.name.as_str()) {
                missing.push(clone_string(&f.name));
            }
            proof {
                assert(fields@.take(i as int + 1).drop_last() =~= fields@.take(i as int));
                assert(fields@.take(i as int + 1).last() == fields@[i as int]);
                assert(missing@.map_values(|s: String| s@) =~= self.spec_missing_of(
                    fields@.take(i as int + 1),
                ));
            }
            i = i + 1;
        }
        proof {
            assert(fields@.take(fields@.len() as int) =~= fields@);
        }
        let mut unknown: Vec<String> = Vec::new();
        let mut k: usize = 0;
        while k < self.attribs.len()
            invariant
                k <= self.spec_attribs().len(),
                unknown@.map_values(|s: String| s@) == spec_unknown_in(
                    self.spec_attribs().take(k as int),
                    fields@,
                ),
            decreases self.spec_attribs().len() - k,
        {
            let pair = &self.attribs[k];
            if !fields_contain(fields, pair.0.as_str()) {
                unknown.push(clone_string(&pair.0));
            }
            proof {
                assert(self.spec_attribs().take(k as int + 1).drop_last() =~= self.spec_attribs()
                    .take(k as int));
                assert(self.spec_attribs().take(k as int + 1).last() == self.spec_attribs()[
                    k as int]);
                assert(unknown@.map_values(|s: String| s@) =~= spec_unknown_in(
                    self.spec_attribs().take(k as int + 1),
                    fields@,
                ));
            }
            k = k + 1;
        }
        proof {
            assert(self.spec_attribs().take(self.spec_attribs().len() as int)
                =~= self.spec_attribs());
        }
        if missing.len() == 0 && unknown.len() == 0 {
            proof {
                assert(self.spec_missing_of(fields@).len() == 0);
                assert(self.spec_unknown_of(fields@).len() == 0);
            }
            Ok(())
        } else {
            Err(AttribError { missing_attribs: missing, unknown_attribs: unknown })
        }
    }
}

/// The location registered under the name in an association list,
/// searching from the front.
pub open spec fn spec_assoc_lookup(
    table: Seq<(String, ProgramAttrib)>,
    name: Seq<char>,
) -> Option<ProgramAttrib>
    decreases table.len(),
{
    if table.len() == 0 {
        None
    } else if table[0].0@ == name {
        Some(table[0].1)
    } else {
        spec_assoc_lookup(table.drop_first(), name)
    }
}

/// The registered names, among the given ones, that the record does not
/// declare, in registration order.
pub open spec fn spec_unknown_in(
    attribs: Seq<(String, ProgramAttrib)>,
    fields: Seq<VertexAttribute>,
) -> Seq<Seq<char>>
    decreases attribs.len(),
{
    if attribs.len() == 0 {
        Seq::<Seq<char>>::empty()
    } else {
        let rest = spec_unknown_in(attribs.drop_last(), fields);
        if spec_fields_contain(fields, attribs.last().0@) {
            rest
        } else {
            rest.push(attribs.last().0@)
        }
    }
}

/// Whether any of the fields declares the name.
fn fields_contain(fields: &Vec<VertexAttribute>, name: &str) -> (r: bool)
    ensures
        r == spec_fields_contain(fields@, name@),
{
    let mut i: usize = 0;
    while i < fields.len()
        invariant
            i <= fields@.len(),
            forall|j: int| 0 <= j < i ==> (#[trigger] fields@[j]).name@ != name@,
        decreases fields@.len() - i,
    {
        let f = &fields[i];
        if str_eq(f.name.as_str(), name) {
            return true;
        }
        i = i + 1;
    }
    false
}

/// A verified copy of a string.
fn clone_string(s: &String) -> (r: String)
    ensures
        r@ == s@,
{
    String::from_str(s.as_str())
}

/// When no field is reported missing, every field is registered.
proof fn lemma_missing_empty(b: &AttribBinder, fields: Seq<VertexAttribute>)
    requires
        b.spec_missing_of(fields).len() == 0,
    ensures
        forall|i: int|
            0 <= i < fields.len() ==> b.spec_contains_name((#[trigger] fields[i]).name@),
    decreases fields.len(),
{
    if fields.len() > 0 {
        lemma_missing_empty(b, fields.drop_last());
        assert forall|i: int|
            0 <= i < fields.len() implies b.spec_contains_name(
            (#[trigger] fields[i]).name@,
        ) by {
            if i < fields.len() - 1 {
                assert(fields.drop_last()[i] == fields[i]);
            } else {
                assert(fields.last() == fields[i]);
            }
        }
    }
}

/// When no registered name is reported unknown, every one of the given
/// registrations is declared by some field.
proof fn lemma_unknown_empty(attribs: Seq<(String, ProgramAttrib)>, fields: Seq<VertexAttribute>)
    requires
        spec_unknown_in(attribs, fields).len() == 0,
    ensures
        forall|i: int|
            0 <= i < attribs.len() ==> spec_fields_contain(fields, (#[trigger] attribs[i]).0@),
    decreases attribs.len(),
{
    if attribs.len() > 0 {
        lemma_unknown_empty(attribs.drop_last(), fields);
        assert forall|i: int|
            0 <= i < attribs.len() implies spec_fields_contain(
            fields,
            (#[trigger] attribs[i]).0@,
        ) by {
            if i < attribs.len() - 1 {
                assert(attribs.drop_last()[i] == attribs[i]);
            } else {
                assert(attribs.last() == attribs[i]);
            }
        }
    }
}

/// Law: a field set that validates matches the registered set exactly —
/// the symmetric difference is empty.  Every declared field has a
/// registration, and every registered name is declared by some field.
pub proof fn lemma_valid_is_exact_match(b: &AttribBinder, fields: Seq<VertexAttribute>)
    requires
        b.spec_valid_for(fields),
    ensures
        forall|i: int|
            0 <= i < fields.len() ==> b.spec_contains_name((#[trigger] fields[i]).name@),
        forall|i: int|
            0 <= i < b.spec_attribs().len() ==> spec_fields_contain(
                fields,
                (#[trigger] b.spec_attribs()[i]).0@,
            ),
{
    lemma_missing_empty(b, fields);
    lemma_unknown_empty(b.spec_attribs(), fields);
}

impl AttribBinder {
    /// Enable the attribute array of each of the record's fields, in
    /// declaration order, after validating the field set.
    pub fn enable<T: VertexData>(&self, gl: &mut GlMachine) -> (r: Result<(), AttribError>)
        ensures
            same_but_log(*old(gl), *final(gl)),
            r is Ok <==> self.spec_valid_for(T::spec_attributes()),
            r is Ok ==> final(gl).log@ == old(gl).log@ + self.spec_enable_calls(
                T::spec_attributes(),
            ),
            r matches Err(e) ==> {
                &&& final(gl).log@ == old(gl).log@
                &&& e.spec_missing() == self.spec_missing_of(T::spec_attributes())
                &&& e.spec_unknown() == self.spec_unknown_of(T::spec_attributes())
            },
    {
        let fields = T::attributes();
        let validated = self.validate(&fields);
        match validated {
            Err(e) => Err(e),
            Ok(()) => {
                proof {
                    lemma_missing_empty(self, fields@);
                }
                let ghost log0 = gl.log@;
                let mut i: usize = 0;
                while i < fields.len()
                    invariant
                        i <= fields@.len(),
                        fields@ == T::spec_attributes(),
                        forall|j: int|
                            0 <= j < fields@.len() ==> self.spec_contains_name(
                                (#[trigger] fields@[j]).name@,
                            ),
                        same_but_log(*old(gl), *gl),
                        gl.log@ == log0 + self.spec_enable_calls(fields@.take(i as int)),
                        log0 == old(gl).log@,
                    decreases fields@.len() - i,
                {
                    let f = &fields[i];
                    let a = self.lookup(f.name.as_str());
                    gl.enable_vertex_attrib_array(a.gl_index);
                    proof {
                        assert(fields@.take(i as int + 1).drop_last() =~= fields@.take(i as int));
                        assert(fields@.take(i as int + 1).last() == fields@[i as int]);
                        assert(gl.log@ =~= log0 + self.spec_enable_calls(
                            fields@.take(i as int + 1),
                        ));
                    }
                    i = i + 1;
                }
                proof {
                    assert(fields@.take(fields@.len() as int) =~= fields@);
                }
                Ok(())
            },
        }
    }

    /// Issue the attribute-pointer call of each of the record's fields,
    /// in declaration order, against the bound array buffer, after
    /// validating the field set.
    pub fn bind<T: VertexData>(&self, gl_buffer: &ArrayBufferBinding, gl: &mut GlMachine) -> (r:
        Result<(), AttribError>)
        requires
            old(gl).bindings.array_buffer == gl_buffer.spec_gl_id(),
        ensures
            same_but_log(*old(gl), *final(gl)),
            r is Ok <==> self.spec_valid_for(T::spec_attributes()),
            r is Ok ==> final(gl).log@ == old(gl).log@ + self.spec_pointer_calls(
                T::spec_attributes(),
            ),
            r matches Err(e) ==> {
                &&& final(gl).log@ == old(gl).log@
                &&& e.spec_missing() == self.spec_missing_of(T::spec_attributes())
                &&& e.spec_unknown() == self.spec_unknown_of(T::spec_attributes())
            },
    {
        let fields = T::attributes();
        let validated = self.validate(&fields);
        match validated {
            Err(e) => Err(e),
            Ok(()) => {
                proof {
                    lemma_missing_empty(self, fields@);
                }
                let ghost log0 = gl.log@;
                let mut i: usize = 0;
                while i < fields.len()
                    invariant
                        i <= fields@.len(),
                        fields@ == T::spec_attributes(),
                        forall|j: int|
                            0 <= j < fields@.len() ==> self.spec_contains_name(
                                (#[trigger] fields@[j]).name@,
                            ),
                        forall|j: int| 0 <= j < fields@.len() ==> (#[trigger] fields@[j]).wf(),
                        same_but_log(*old(gl), *gl),
                        gl.bindings.array_buffer == gl_buffer.spec_gl_id(),
                        gl.log@ == log0 + self.spec_pointer_calls(fields@.take(i as int)),
                        log0 == old(gl).log@,
                    decreases fields@.len() - i,
                {
                    let f = &fields[i];
                    let a = self.lookup(f.name.as_str());
                    gl_buffer.vertex_attrib_pointer(
                        gl,
                        a,
                        f.ty.components,
                        f.ty.data,
                        f.ty.normalize,
                        f.stride,
                        f.offset,
                    );
                    proof {
                        assert(fields@.take(i as int + 1).drop_last() =~= fields@.take(i as int));
                        assert(fields@.take(i as int + 1).last() == fields@[i as int]);
                        assert(gl.log@ =~= log0 + self.spec_pointer_calls(
                            fields@.take(i as int + 1),
                        ));
                    }
                    i = i + 1;
                }
                proof {
                    assert(fields@.take(fields@.len() as int) =~= fields@);
                }
                Ok(())
            },
        }
    }
}

/// An owned vertex buffer: a buffer handle, the number of records last
/// uploaded, and the attribute binder it draws with, once attached.
pub struct VertexBuffer<T: VertexData> {
    attrib_binder: Option<AttribBinder>,
    buffer: Buffer,
    count: usize,
    phantom: PhantomData<T>,
}

impl<T: VertexData> VertexBuffer<T> {
    /// The attribute binder attached for drawing, if one is.
    pub closed spec fn spec_attrib_binder(&self) -> Option<AttribBinder> {
        self.attrib_binder
    }

    /// The owned buffer handle.
    pub closed spec fn spec_buffer(&self) -> Buffer {
        self.buffer
    }

    /// The number of records last uploaded.
    pub closed spec fn spec_count(&self) -> usize {
        self.count
    }

    /// Attach the mapping from field names to program-attribute
    /// locations that draws will use.
    pub fn bind_attrib_pointers(&mut self, binder: AttribBinder)
        ensures
            final(self).spec_attrib_binder() == Some(binder),
            final(self).spec_buffer() == old(self).spec_buffer(),
            final(self).spec_count() == old(self).spec_count(),
    {
        self.attrib_binder = Some(binder);
    }

    /// Enable and describe each vertex field against the bound array
    /// buffer.  Fails without observable effect when no attribute binder
    /// is attached or when the record's field set does not match the
    /// registered one.
    pub fn bind(&self, gl_buffer: &ArrayBufferBinding, gl: &mut GlMachine) -> (r: Result<(), ()>)
        requires
            old(gl).bindings.array_buffer == gl_buffer.spec_gl_id(),
        ensures
            same_but_log(*old(gl), *final(gl)),
            r is Ok <==> (self.spec_attrib_binder() matches Some(b) && b.spec_valid_for(
                T::spec_attributes(),
            )),
            r is Ok ==> (self.spec_attrib_binder() matches Some(b) && final(gl).log@ == old(
                gl,
            ).log@ + b.spec_enable_calls(T::spec_attributes()) + b.spec_pointer_calls(
                T::spec_attributes(),
            )),
            r is Err ==> final(gl).log@ == old(gl).log@,
    {
        match &self.attrib_binder {
            Some(binder) => {
                let enabled = binder.enable::<T>(gl);
                match enabled {
                    Ok(()) => {
                        let bound = binder.bind::<T>(gl_buffer, gl);
                        match bound {
                            Ok(()) => Ok(()),
                            Err(_) => {
                                proof {
                                    assert(false);
                                }
                                Err(())
                            },
                        }
                    },
                    Err(_) => Err(()),
                }
            },
            None => Err(()),
        }
    }

    /// Read the owned buffer handle.
    pub fn buffer(&self) -> (r: &Buffer)
        ensures
            r == self.spec_buffer(),
    {
        &self.buffer
    }

    /// Borrow the owned buffer handle for binding.
    pub fn buffer_mut(&mut self) -> (r: &mut Buffer)
        ensures
            *r == old(self).spec_buffer(),
            final(self).spec_buffer() == *final(r),
            final(self).spec_attrib_binder() == old(self).spec_attrib_binder(),
            final(self).spec_count() == old(self).spec_count(),
    {
        &mut self.buffer
    }

    /// The number of records last uploaded.
    pub fn count(&self) -> (r: usize)
        ensures
            r == self.spec_count(),
    {
        self.count
    }
}

/// A bound vertex buffer: the array-buffer binding together with the
/// vertex buffer it binds, so uploads can keep the record count honest.
pub struct VertexBufferBinding<T: VertexData> {
    gl_buffer: ArrayBufferBinding,
    vbo: VertexBuffer<T>,
}

impl<T: VertexData> VertexBufferBinding<T> {
    /// The array-buffer binding.
    pub closed spec fn spec_gl_buffer(&self) -> ArrayBufferBinding {
        self.gl_buffer
    }

    /// The vertex buffer.
    pub closed spec fn spec_vbo(&self) -> VertexBuffer<T> {
        self.vbo
    }

    /// The number of records last uploaded.
    pub open spec fn spec_count(&self) -> usize {
        self.spec_vbo().spec_count()
    }

    /// Pair an array-buffer binding with the vertex buffer it binds:
    /// the binding must hold this very buffer.
    pub fn new(gl_buffer: ArrayBufferBinding, vbo: VertexBuffer<T>) -> (r: VertexBufferBinding<T>)
        requires
            gl_buffer.spec_gl_id() == vbo.spec_buffer().spec_gl_id(),
        ensures
            r.spec_gl_buffer() == gl_buffer,
            r.spec_vbo() == vbo,
    {
        VertexBufferBinding { gl_buffer: gl_buffer, vbo: vbo }
    }

    /// Take the binding apart again.
    pub fn into_parts(self) -> (r: (ArrayBufferBinding, VertexBuffer<T>))
        ensures
            r.0 == self.spec_gl_buffer(),
            r.1 == self.spec_vbo(),
    {
        let VertexBufferBinding { gl_buffer, vbo } = self;
        (gl_buffer, vbo)
    }

    /// Upload the records into the bound buffer.  The stored count is
    /// set by this operation alone, so it reflects the last upload.
    pub fn buffer_data(&mut self, gl: &mut GlMachine, data: &[T], usage: BufferDataUsage)
        requires
            old(gl).bindings.array_buffer == old(self).spec_gl_buffer().spec_gl_id(),
            data@.len() * T::spec_vertex_size() <= usize::MAX,
        ensures
            final(self).spec_gl_buffer() == old(self).spec_gl_buffer(),
            final(self).spec_vbo().spec_buffer() == old(self).spec_vbo().spec_buffer(),
            final(self).spec_vbo().spec_attrib_binder() == old(self).spec_vbo().spec_attrib_binder(),
            final(self).spec_count() == data@.len(),
            same_but_log(*old(gl), *final(gl)),
            final(gl).log@ == old(gl).log@.push(
                GlCall::BufferData {
                    target: BufferTarget::ArrayBuffer,
                    len: (data@.len() * T::spec_vertex_size()) as usize,
                    usage: usage,
                },
            ),
    {
        self.vbo.count = data.len();
        let len: usize = data.len() * T::vertex_size();
        gl.buffer_data(BufferTarget::ArrayBuffer, len, usage);
    }
}

/// An owned index buffer: a buffer handle and the number of index
/// elements last uploaded.
pub struct IndexBuffer<T: IndexDatum> {
    buffer: Buffer,
    count: usize,
    phantom: PhantomData<T>,
}

impl<T: IndexDatum> IndexBuffer<T> {
    /// The owned buffer handle.
    pub closed spec fn spec_buffer(&self) -> Buffer {
        self.buffer
    }

    /// The number of index elements last uploaded.
    pub closed spec fn spec_count(&self) -> usize {
        self.count
    }

    /// Read the owned buffer handle.
    pub fn buffer(&self) -> (r: &Buffer)
        ensures
            r == self.spec_buffer(),
    {
        &self.buffer
    }

    /// Borrow the owned buffer handle for binding.
    pub fn buffer_mut(&mut self) -> (r: &mut Buffer)
        ensures
            *r == old(self).spec_buffer(),
            final(self).spec_buffer() == *final(r),
            final(self).spec_count() == old(self).spec_count(),
    {
        &mut self.buffer
    }

    /// The number of index elements last uploaded.
    pub fn count(&self) -> (r: usize)
        ensures
            r == self.spec_count(),
    {
        self.count
    }
}

/// A bound index buffer: the element-array-buffer binding together with
/// the index buffer it binds.
pub struct IndexBufferBinding<T: IndexDatum> {
    gl_buffer: ElementArrayBufferBinding,
    ibo: IndexBuffer<T>,
}

impl<T: IndexDatum> IndexBufferBinding<T> {
    /// The element-array-buffer binding.
    pub closed spec fn spec_gl_buffer(&self) -> ElementArrayBufferBinding {
        self.gl_buffer
    }

    /// The index buffer.
    pub closed spec fn spec_ibo(&self) -> IndexBuffer<T> {
        self.ibo
    }

    /// The number of index elements last uploaded.
    pub open spec fn spec_count(&self) -> usize {
        self.spec_ibo().spec_count()
    }

    /// Pair an element-array-buffer binding with the index buffer it
    /// binds: the binding must hold this very buffer.
    pub fn new(gl_buffer: ElementArrayBufferBinding, ibo: IndexBuffer<T>) -> (r: IndexBufferBinding<
        T,
    >)
        requires
            gl_buffer.spec_gl_id() == ibo.spec_buffer().spec_gl_id(),
        ensures
            r.spec_gl_buffer() == gl_buffer,
            r.spec_ibo() == ibo,
    {
        IndexBufferBinding { gl_buffer: gl_buffer, ibo: ibo }
    }

    /// Take the binding apart again.
    pub fn into_parts(self) -> (r: (ElementArrayBufferBinding, IndexBuffer<T>))
        ensures
            r.0 == self.spec_gl_buffer(),
            r.1 == self.spec_ibo(),
    {
        let IndexBufferBinding { gl_buffer, ibo } = self;
        (gl_buffer, ibo)
    }

    /// Upload the index elements into the bound buffer.  The stored
    /// count is set by this operation alone, so it reflects the last
    /// upload.
    pub fn buffer_data(&mut self, gl: &mut GlMachine, data: &[T], usage: BufferDataUsage)
        requires
            old(gl).bindings.element_array_buffer == old(self).spec_gl_buffer().spec_gl_id(),
            data@.len() * spec_index_size(T::spec_datum_type()) <= usize::MAX,
        ensures
            final(self).spec_gl_buffer() == old(self).spec_gl_buffer(),
            final(self).spec_ibo().spec_buffer() == old(self).spec_ibo().spec_buffer(),
            final(self).spec_count() == data@.len(),
            same_but_log(*old(gl), *final(gl)),
            final(gl).log@ == old(gl).log@.push(
                GlCall::BufferData {
                    target: BufferTarget::ElementArrayBuffer,
                    len: (data@.len() * spec_index_size(T::spec_datum_type())) as usize,
                    usage: usage,
                },
            ),
    {
        self.ibo.count = data.len();
        let len: usize = data.len() * index_size(T::index_datum_type());
        gl.buffer_data(BufferTarget::ElementArrayBuffer, len, usage);
    }
}

impl FramebufferBinding {
    /// Draw a range of consecutive records of a bound vertex buffer.
    /// The range must lie within the records last uploaded.
    pub fn draw_arrays_range_vbo<T: VertexData>(
        &mut self,
        gl: &mut GlMachine,
        gl_vbo: &VertexBufferBinding<T>,
        mode: DrawingMode,
        start: u32,
        length: usize,
    )
        requires
            old(gl).bindings.framebuffer == old(self).spec_fb_id(),
            old(gl).bindings.array_buffer == gl_vbo.spec_gl_buffer().spec_gl_id(),
            start + length <= gl_vbo.spec_count(),
        ensures
            *final(self) == *old(self),
            same_but_log(*old(gl), *final(gl)),
            final(gl).log@ == old(gl).log@.push(
                GlCall::DrawArrays { mode: mode, first: start, count: length },
            ),
    {
        gl.draw_arrays(mode, start, length);
    }

    /// Draw every record last uploaded into a bound vertex buffer.
    pub fn draw_arrays_vbo<T: VertexData>(
        &mut self,
        gl: &mut GlMachine,
        gl_vbo: &VertexBufferBinding<T>,
        mode: DrawingMode,
    )
        requires
            old(gl).bindings.framebuffer == old(self).spec_fb_id(),
            old(gl).bindings.array_buffer == gl_vbo.spec_gl_buffer().spec_gl_id(),
        ensures
            *final(self) == *old(self),
            same_but_log(*old(gl), *final(gl)),
            final(gl).log@ == old(gl).log@.push(
                GlCall::DrawArrays { mode: mode, first: 0, count: gl_vbo.spec_count() },
            ),
    {
        let count = gl_vbo.vbo.count;
        gl.draw_arrays(mode, 0, count);
    }

    /// Draw a number of indices from a bound index buffer, addressing a
    /// bound vertex buffer.  The number must lie within the indices
    /// last uploaded.
    pub fn draw_n_elements_buffered_vbo<T: VertexData, I: IndexDatum>(
        &mut self,
        gl: &mut GlMachine,
        gl_vbo: &VertexBufferBinding<T>,
        gl_ibo: &IndexBufferBinding<I>,
        mode: DrawingMode,
        length: usize,
    )
        requires
            old(gl).bindings.framebuffer == old(self).spec_fb_id(),
            old(gl).bindings.array_buffer == gl_vbo.spec_gl_buffer().spec_gl_id(),
            old(gl).bindings.element_array_buffer == gl_ibo.spec_gl_buffer().spec_gl_id(),
            length <= gl_ibo.spec_count(),
        ensures
            *final(self) == *old(self),
            same_but_log(*old(gl), *final(gl)),
            final(gl).log@ == old(gl).log@.push(
                GlCall::DrawElements {
                    mode: mode,
                    count: length,
                    index_type: I::spec_datum_type(),
                },
            ),
    {
        gl.draw_elements(mode, length, I::index_datum_type());
    }

    /// Draw every index last uploaded into a bound index buffer,
    /// addressing a bound vertex buffer.
    pub fn draw_elements_buffered_vbo<T: VertexData, I: IndexDatum>(
        &mut self,
        gl: &mut GlMachine,
        gl_vbo: &VertexBufferBinding<T>,
        gl_ibo: &IndexBufferBinding<I>,
        mode: DrawingMode,
    )
        requires
            old(gl).bindings.framebuffer == old(self).spec_fb_id(),
            old(gl).bindings.array_buffer == gl_vbo.spec_gl_buffer().spec_gl_id(),
            old(gl).bindings.element_array_buffer == gl_ibo.spec_gl_buffer().spec_gl_id(),
        ensures
            *final(self) == *old(self),
            same_but_log(*old(gl), *final(gl)),
            final(gl).log@ == old(gl).log@.push(
                GlCall::DrawElements {
                    mode: mode,
                    count: gl_ibo.spec_count(),
                    index_type: I::spec_datum_type(),
                },
            ),
    {
        let count = gl_ibo.ibo.count;
        gl.draw_elements(mode, count, I::index_datum_type());
    }

    /// Draw a number of client-memory indices, addressing a bound
    /// vertex buffer.  The number must lie within the given indices.
    pub fn draw_n_elements_vbo<T: VertexData, I: IndexDatum>(
        &mut self,
        gl: &mut GlMachine,
        gl_vbo: &VertexBufferBinding<T>,
        mode: DrawingMode,
        count: usize,
        indices: &[I],
    )
        requires
            old(gl).bindings.framebuffer == old(self).spec_fb_id(),
            old(gl).bindings.array_buffer == gl_vbo.spec_gl_buffer().spec_gl_id(),
            count <= indices@.len(),
        ensures
            *final(self) == *old(self),
            same_but_log(*old(gl), *final(gl)),
            final(gl).log@ == old(gl).log@.push(
                GlCall::DrawElements { mode: mode, count: count, index_type: I::spec_datum_type() },
            ),
    {
        gl.draw_elements(mode, count, I::index_datum_type());
    }

    /// Draw all the given client-memory indices, addressing a bound
    /// vertex buffer.
    pub fn draw_elements_vbo<T: VertexData, I: IndexDatum>(
        &mut self,
        gl: &mut GlMachine,
        gl_vbo: &VertexBufferBinding<T>,
        mode: DrawingMode,
        indices: &[I],
    )
        requires
            old(gl).bindings.framebuffer == old(self).spec_fb_id(),
            old(gl).bindings.array_buffer == gl_vbo.spec_gl_buffer().spec_gl_id(),
        ensures
            *final(self) == *old(self),
            same_but_log(*old(gl), *final(gl)),
            final(gl).log@ == old(gl).log@.push(
                GlCall::DrawElements {
                    mode: mode,
                    count: indices@.len() as usize,
                    index_type: I::spec_datum_type(),
                },
            ),
    {
        let count = indices.len();
        gl.draw_elements(mode, count, I::index_datum_type());
    }
}

impl Context {
    /// Allocate a vertex buffer with no records uploaded and no
    /// attribute binder attached.
    pub fn new_vertex_buffer<T: VertexData>(&self, gl: &mut GlMachine) -> (v: VertexBuffer<T>)
        ensures
            v.spec_buffer().spec_gl_id() == old(gl).spec_gen_result(),
            v.spec_count() == 0,
            v.spec_attrib_binder() is None,
            final(gl).next_id == old(gl).spec_next_after(v.spec_buffer().spec_gl_id()),
            same_config(old(gl).config, final(gl).config),
            final(gl).bindings == old(gl).bindings,
            final(gl).fb_attachments@ == old(gl).fb_attachments@,
            final(gl).log@ == old(gl).log@.push(
                GlCall::GenBuffer { result: v.spec_buffer().spec_gl_id() },
            ),
    {
        let buffer = self.gen_buffer(gl);
        VertexBuffer { attrib_binder: None, buffer: buffer, count: 0, phantom: PhantomData }
    }

    /// Allocate an index buffer with no elements uploaded.
    pub fn new_index_buffer<T: IndexDatum>(&self, gl: &mut GlMachine) -> (v: IndexBuffer<T>)
        ensures
            v.spec_buffer().spec_gl_id() == old(gl).spec_gen_result(),
            v.spec_count() == 0,
            final(gl).next_id == old(gl).spec_next_after(v.spec_buffer().spec_gl_id()),
            same_config(old(gl).config, final(gl).config),
            final(gl).bindings == old(gl).bindings,
            final(gl).fb_attachments@ == old(gl).fb_attachments@,
            final(gl).log@ == old(gl).log@.push(
                GlCall::GenBuffer { result: v.spec_buffer().spec_gl_id() },
            ),
    {
        let buffer = self.gen_buffer(gl);
        IndexBuffer { buffer: buffer, count: 0, phantom: PhantomData }
    }
}

} // verus!
