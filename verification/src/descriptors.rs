//! The registry of descriptor sets, keyed by texture identifier.

use std::collections::HashMap;
use vstd::prelude::*;
use crate::error::LibError;

verus! {

broadcast use vstd::std_specs::hash::group_hash_axioms;

/// The texture identifier that stands for "no texture yet".
pub const NULL_TEXTURE_ID: usize = 0;

/// The descriptor sets of the renderer (`S`), each under the texture identifier it was
/// registered with, and the allocator (`A`) they come from.
#[derive(Debug)]
pub struct LibDescriptorSets<A, S> {
    allocator: A,
    descriptor_sets: HashMap<usize, S>,
}

impl<A, S> View for LibDescriptorSets<A, S> {
    type V = Map<usize, S>;

    closed spec fn view(&self) -> Map<usize, S> {
        self.descriptor_sets@
    }
}

impl<A, S> LibDescriptorSets<A, S> {
    /// The allocator the sets come from.
    pub closed spec fn spec_allocator(&self) -> A {
        self.allocator
    }

    /// An empty registry that allocates from `allocator`.
    pub fn new(allocator: A) -> (r: Self)
        ensures
            r@ == Map::<usize, S>::empty(),
            r.spec_allocator() == allocator,
    {
        LibDescriptorSets { allocator, descriptor_sets: HashMap::new() }
    }

    /// The allocator the sets come from.
    pub fn allocator(&self) -> (r: &A)
        ensures
            *r == self.spec_allocator(),
    {
        &self.allocator
    }

    /// Whether a set is registered under `key`.
    pub fn contains(&self, key: usize) -> (r: bool)
        ensures
            r == self@.contains_key(key),
    {
        self.descriptor_sets.contains_key(&key)
    }

    /// Registers `set` under `key`, replacing any set registered there before.
    pub fn insert(&mut self, key: usize, set: S)
        ensures
            final(self)@ == old(self)@.insert(key, set),
            final(self).spec_allocator() == old(self).spec_allocator(),
    {
        let _ = self.descriptor_sets.insert(key, set);
    }

    /// Removes the set that `key` names, unless `key` is the null identifier (which names no
    /// set). A uniform or font calls this for its current set before it builds the next one.
    pub fn release(&mut self, key: usize)
        ensures
            final(self)@ == (if key != NULL_TEXTURE_ID {
                old(self)@.remove(key)
            } else {
                old(self)@
            }),
            final(self).spec_allocator() == old(self).spec_allocator(),
    {
        if key != NULL_TEXTURE_ID {
            let _ = self.descriptor_sets.remove(&key);
        }
    }

    /// Replaces the set that `old_key` names by `set` under `new_key`: the set under `old_key`
    /// is removed first unless `old_key` is the null identifier. Returns `new_key`.
    pub fn replace(&mut self, old_key: usize, new_key: usize, set: S) -> (r: usize)
        ensures
            r == new_key,
            final(self)@ == (if old_key != NULL_TEXTURE_ID {
                old(self)@.remove(old_key)
            } else {
                old(self)@
            }).insert(new_key, set),
            final(self).spec_allocator() == old(self).spec_allocator(),
    {
        self.release(old_key);
        self.insert(new_key, set);
        new_key
    }
}

/// A registry of descriptor sets (`S`) keyed by texture identifier.
pub trait DescriptorSetRegistry<S> {
    /// The sets, each under the identifier it was registered with.
    spec fn registered(&self) -> Map<usize, S>;

    /// The set registered under `key`, or `MissingDescriptorSet(key)` when there is none.
    fn get(&self, key: usize) -> (r: Result<&S, LibError>)
        ensures
            self.registered().contains_key(key) ==> (r matches Ok(s) && *s
                == self.registered()[key]),
            !self.registered().contains_key(key) ==> (r matches Err(
                LibError::MissingDescriptorSet(k),
            ) && k == key),
    ;

    /// Removes the set registered under `key`, if there is one.
    fn remove(&mut self, key: usize)
        ensures
            final(self).registered() == old(self).registered().remove(key),
    ;
}

impl<A, S> DescriptorSetRegistry<S> for LibDescriptorSets<A, S> {
    open spec fn registered(&self) -> Map<usize, S> {
        self@
    }

    fn get(&self, key: usize) -> (r: Result<&S, LibError>) {
        match self.descriptor_sets.get(&key) {
            Some(s) => Ok(s),
            None => Err(LibError::MissingDescriptorSet(key)),
        }
    }

    fn remove(&mut self, key: usize)
        ensures
            final(self).spec_allocator() == old(self).spec_allocator(),
    {
        let _ = self.descriptor_sets.remove(&key);
    }
}

/// After a set is registered under a key, looking the key up gives that set, and every other
/// key gives what it gave before.
pub proof fn law_get_after_insert<S>(
    m: Map<usize, S>,
    key: usize,
    set: S,
    other: usize,
)
    requires
        other != key,
    ensures
        m.insert(key, set).contains_key(key),
        m.insert(key, set)[key] == set,
        m.insert(key, set).contains_key(other) == m.contains_key(other),
        m.contains_key(other) ==> m.insert(key, set)[other] == m[other],
{
}

/// After a key is removed, looking it up finds nothing, and every other key gives what it
/// gave before.
pub proof fn law_get_after_remove<S>(m: Map<usize, S>, key: usize, other: usize)
    requires
        other != key,
    ensures
        !m.remove(key).contains_key(key),
        m.remove(key).contains_key(other) == m.contains_key(other),
        m.contains_key(other) ==> m.remove(key)[other] == m[other],
{
}

} // verus!

verus! {

/// The descriptor set that holds imgui's orthographic projection, by texture identifier.
#[derive(Debug)]
pub struct ImguiOrthoUniform(usize);

/// The descriptor set that holds the camera's model, view and projection, by texture
/// identifier.
#[derive(Debug)]
pub struct Basic3dMVPUniform(usize);

impl ImguiOrthoUniform {
    /// The identifier of the current set.
    pub closed spec fn id(&self) -> usize {
        self.0
    }

    /// A uniform with no set yet (the null identifier).
    pub fn new() -> (r: Self)
        ensures
            r.id() == NULL_TEXTURE_ID,
    {
        ImguiOrthoUniform(NULL_TEXTURE_ID)
    }

    /// The identifier of the current set.
    pub fn get(&self) -> (r: usize)
        ensures
            r == self.id(),
    {
        self.0
    }

    /// Makes `set`, registered under `key`, the current set: the previous set is removed from
    /// the registry unless there was none.
    pub fn create_descriptor_set<A, S>(
        &mut self,
        descriptors: &mut LibDescriptorSets<A, S>,
        key: usize,
        set: S,
    )
        ensures
            final(self).id() == key,
            final(descriptors)@ == (if old(self).id() != NULL_TEXTURE_ID {
                old(descriptors)@.remove(old(self).id())
            } else {
                old(descriptors)@
            }).insert(key, set),
            final(descriptors).spec_allocator() == old(descriptors).spec_allocator(),
    {
        self.0 = descriptors.replace(self.0, key, set);
    }
}

impl Basic3dMVPUniform {
    /// The identifier of the current set.
    pub closed spec fn id(&self) -> usize {
        self.0
    }

    /// A uniform with no set yet (the null identifier).
    pub fn new() -> (r: Self)
        ensures
            r.id() == NULL_TEXTURE_ID,
    {
        Basic3dMVPUniform(NULL_TEXTURE_ID)
    }

    /// The identifier of the current set.
    pub fn get(&self) -> (r: usize)
        ensures
            r == self.id(),
    {
        self.0
    }

    /// Makes `set`, registered under `key`, the current set: the previous set is removed from
    /// the registry unless there was none.
    pub fn create_descriptor_set<A, S>(
        &mut self,
        descriptors: &mut LibDescriptorSets<A, S>,
        key: usize,
        set: S,
    )
        ensures
            final(self).id() == key,
            final(descriptors)@ == (if old(self).id() != NULL_TEXTURE_ID {
                old(descriptors)@.remove(old(self).id())
            } else {
                old(descriptors)@
            }).insert(key, set),
            final(descriptors).spec_allocator() == old(descriptors).spec_allocator(),
    {
        self.0 = descriptors.replace(self.0, key, set);
    }
}

/// Registration of imgui's font texture.
#[derive(Debug)]
pub struct ImguiFontBuilder;

impl ImguiFontBuilder {
    /// Registers the font texture's set under `font_id`, removing the set of the previous font
    /// texture `old_tex_id` unless it is the null identifier. Returns the font's new texture
    /// identifier.
    pub fn register_font<A, S>(
        descriptors: &mut LibDescriptorSets<A, S>,
        old_tex_id: usize,
        font_id: usize,
        set: S,
    ) -> (r: usize)
        ensures
            r == font_id,
            final(descriptors)@ == (if old_tex_id != NULL_TEXTURE_ID {
                old(descriptors)@.remove(old_tex_id)
            } else {
                old(descriptors)@
            }).insert(font_id, set),
            final(descriptors).spec_allocator() == old(descriptors).spec_allocator(),
    {
        descriptors.replace(old_tex_id, font_id, set)
    }
}

} // verus!
