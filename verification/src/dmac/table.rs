//! Descriptors in memory, and the chains that the engine follows through them.
//!
//! The engine is given the address of a first descriptor. After each block it
//! reads the address of the next from the descriptor it just finished, and
//! stops at the null address. A table keeps descriptors one after the other
//! from an aligned base address, as an array in memory does, so that each has
//! an address that can be written into another descriptor or into the base
//! address register.

use crate::dmac::{Descriptor, DESCRIPTOR_ALIGNMENT, DESCRIPTOR_SIZE};
use vstd::prelude::*;

verus! {

/// Descriptors that lie one after the other in memory.
pub struct DescriptorTable {
    base: u32,
    entries: Vec<Descriptor>,
}

impl View for DescriptorTable {
    type V = Seq<Descriptor>;

    /// The descriptors, in the order of their addresses.
    closed spec fn view(&self) -> Seq<Descriptor> {
        self.entries@
    }
}

impl DescriptorTable {
    /// Address of the first descriptor.
    pub closed spec fn spec_base(&self) -> u32 {
        self.base
    }

    /// The table starts at an aligned address other than the null address and
    /// ends inside the 32-bit address space.
    pub open spec fn wf(&self) -> bool {
        &&& self.spec_base() != 0
        &&& self.spec_base() % DESCRIPTOR_ALIGNMENT == 0
        &&& self.spec_base() + DESCRIPTOR_SIZE * self@.len() <= 0x1_0000_0000
    }

    /// Address of the descriptor at `index`.
    pub open spec fn spec_address_of(&self, index: int) -> int {
        self.spec_base() + DESCRIPTOR_SIZE * index
    }

    /// Index of the descriptor that lies at `address`, if one does.
    pub open spec fn spec_index_of(&self, address: u32) -> Option<usize> {
        let offset = address - self.spec_base();
        if 0 <= offset && offset % (DESCRIPTOR_SIZE as int) == 0 && offset / (DESCRIPTOR_SIZE as int)
            < self@.len() {
            Some((offset / (DESCRIPTOR_SIZE as int)) as usize)
        } else {
            None
        }
    }

    /// The descriptors that the engine works through when it starts at the
    /// address `first`, as indices into the table, in the order of their
    /// turn. The walk ends at an address where the table has no descriptor,
    /// as the null address is, and after `limit` descriptors.
    pub open spec fn spec_chain(&self, first: u32, limit: nat) -> Seq<usize>
        decreases limit,
    {
        if limit == 0 {
            Seq::empty()
        } else {
            match self.spec_index_of(first) {
                None => Seq::empty(),
                Some(index) => seq![index] + self.spec_chain(
                    self@[index as int].descaddr,
                    (limit - 1) as nat,
                ),
            }
        }
    }

    /// An empty table at `base`. `None` where `base` is the null address or
    /// not a multiple of the alignment that the engine asks for.
    pub fn new(base: u32) -> (table: Option<DescriptorTable>)
        ensures
            table is Some <==> base != 0 && base % DESCRIPTOR_ALIGNMENT == 0,
            table matches Some(t) ==> t.wf() && t.spec_base() == base && t@.len() == 0,
    {
        if base == 0 || base % DESCRIPTOR_ALIGNMENT != 0 {
            None
        } else {
            Some(DescriptorTable { base, entries: Vec::new() })
        }
    }

    /// Address of the first descriptor.
    pub fn base(&self) -> (base: u32)
        ensures
            base == self.spec_base(),
    {
        self.base
    }

    /// Number of descriptors.
    pub fn len(&self) -> (len: usize)
        ensures
            len == self@.len(),
    {
        self.entries.len()
    }

    /// Appends `descriptor` and returns its address. `None`, with the table
    /// unchanged, where the descriptor would reach beyond the 32-bit address
    /// space.
    pub fn push(&mut self, descriptor: Descriptor) -> (address: Option<u32>)
        requires
            old(self).wf(),
        ensures
            final(self).wf(),
            final(self).spec_base() == old(self).spec_base(),
            address is Some <==> old(self).spec_address_of(old(self)@.len() as int)
                + DESCRIPTOR_SIZE <= 0x1_0000_0000,
            address matches Some(a) ==> a == old(self).spec_address_of(old(self)@.len() as int)
                && final(self)@ == old(self)@.push(descriptor),
            address is None ==> final(self)@ == old(self)@,
    {
        let end: u64 = self.base as u64 + DESCRIPTOR_SIZE as u64 * self.entries.len() as u64;
        if end + DESCRIPTOR_SIZE as u64 > 0x1_0000_0000 {
            None
        } else {
            self.entries.push(descriptor);
            Some(end as u32)
        }
    }

    /// Address of the descriptor at `index`: a multiple of the alignment that
    /// the engine asks for, and never the null address.
    pub fn address_of(&self, index: usize) -> (address: u32)
        requires
            self.wf(),
            index < self@.len(),
        ensures
            address == self.spec_address_of(index as int),
            address % DESCRIPTOR_ALIGNMENT == 0,
            address != 0,
            self.spec_index_of(address) == Some(index),
    {
        self.base + DESCRIPTOR_SIZE * index as u32
    }

    /// Index of the descriptor that lies at `address`, if one does.
    pub fn index_of(&self, address: u32) -> (index: Option<usize>)
        requires
            self.wf(),
        ensures
            index == self.spec_index_of(address),
            index matches Some(i) ==> i < self@.len() && address == self.spec_address_of(i as int),
            address == 0 ==> index is None,
    {
        if address < self.base {
            return None;
        }
        let offset: u32 = address - self.base;
        if offset % DESCRIPTOR_SIZE != 0 {
            return None;
        }
        let index: usize = (offset / DESCRIPTOR_SIZE) as usize;
        if index < self.entries.len() {
            Some(index)
        } else {
            None
        }
    }

    /// The descriptor at `index`.
    pub fn get(&self, index: usize) -> (descriptor: Descriptor)
        requires
            index < self@.len(),
        ensures
            descriptor == self@[index as int],
    {
        self.entries[index]
    }

    /// Replaces the descriptor at `index`.
    pub fn set(&mut self, index: usize, descriptor: Descriptor)
        requires
            index < old(self)@.len(),
        ensures
            final(self)@ == old(self)@.update(index as int, descriptor),
            final(self).spec_base() == old(self).spec_base(),
    {
        self.entries.set(index, descriptor);
    }

    /// Makes the descriptor at `next` follow the one at `index`.
    pub fn link(&mut self, index: usize, next: usize)
        requires
            old(self).wf(),
            index < old(self)@.len(),
            next < old(self)@.len(),
        ensures
            final(self).wf(),
            final(self).spec_base() == old(self).spec_base(),
            final(self)@ == old(self)@.update(
                index as int,
                (Descriptor {
                    descaddr: old(self).spec_address_of(next as int) as u32,
                    ..old(self)@[index as int]
                }),
            ),
    {
        let address: u32 = self.address_of(next);
        let mut descriptor: Descriptor = self.entries[index];
        descriptor.descaddr = address;
        self.entries.set(index, descriptor);
    }

    /// The descriptors that the engine works through when it starts at the
    /// address `first`, as indices into the table, in the order of their
    /// turn, `limit` of them at most.
    pub fn chain(&self, first: u32, limit: usize) -> (visited: Vec<usize>)
        requires
            self.wf(),
        ensures
            visited@ == self.spec_chain(first, limit as nat),
            visited@.len() <= limit,
            forall|k: int| 0 <= k < visited@.len() ==> visited@[k] < self@.len(),
    {
        let mut visited: Vec<usize> = Vec::new();
        let mut address: u32 = first;
        let mut steps: usize = 0;
        while steps < limit
            invariant
                self.wf(),
                steps <= limit,
                self.spec_chain(first, limit as nat) == visited@ + self.spec_chain(
                    address,
                    (limit - steps) as nat,
                ),
            decreases limit - steps,
        {
            match self.index_of(address) {
                None => {
                    proof {
                        self.lemma_chain_is_bounded(first, limit as nat);
                    }
                    return visited;
                },
                Some(index) => {
                    let ghost before = visited@;
                    visited.push(index);
                    assert(before + (seq![index] + self.spec_chain(
                        self@[index as int].descaddr,
                        (limit - steps - 1) as nat,
                    )) =~= visited@ + self.spec_chain(
                        self@[index as int].descaddr,
                        (limit - steps - 1) as nat,
                    ));
                    address = self.entries[index].descaddr;
                    steps = steps + 1;
                },
            }
        }
        proof {
            self.lemma_chain_is_bounded(first, limit as nat);
        }
        visited
    }

    /// Every descriptor of a table lies at a multiple of the alignment that
    /// the engine asks for, and each begins where the one before it ends.
    pub proof fn lemma_entries_are_aligned(&self, index: int)
        requires
            self.wf(),
            0 <= index < self@.len(),
        ensures
            self.spec_address_of(index) % (DESCRIPTOR_ALIGNMENT as int) == 0,
            0 < self.spec_address_of(index) <= u32::MAX,
            self.spec_address_of(index) + DESCRIPTOR_SIZE == self.spec_address_of(index + 1),
            self.spec_index_of(self.spec_address_of(index) as u32) == Some(index as usize),
    {
    }

    /// The descriptors at the indices of `path` are linked one to the next,
    /// and the last of them points at no descriptor of the table.
    pub open spec fn is_path(&self, path: Seq<usize>) -> bool {
        &&& path.len() > 0
        &&& forall|k: int| 0 <= k < path.len() ==> (#[trigger] path[k]) < self@.len()
        &&& forall|k: int|
            0 <= k < path.len() - 1 ==> self@[(#[trigger] path[k]) as int].descaddr
                == self.spec_address_of(path[k + 1] as int)
        &&& self.spec_index_of(self@[path.last() as int].descaddr) is None
    }

    /// Started at the first descriptor of a path, the engine works through
    /// the descriptors of the path in their order and then stops, provided
    /// that the limit leaves room for all of them.
    pub proof fn lemma_chain_follows_path(&self, path: Seq<usize>, limit: nat)
        requires
            self.wf(),
            self.is_path(path),
            path.len() <= limit,
        ensures
            self.spec_chain(self.spec_address_of(path[0] as int) as u32, limit) == path,
        decreases path.len(),
    {
        let head = path[0];
        let next = self@[head as int].descaddr;
        self.lemma_entries_are_aligned(head as int);
        if path.len() == 1 {
            assert(path.last() == head);
            assert(self.spec_chain(next, (limit - 1) as nat) =~= Seq::empty());
            assert(seq![head] + Seq::<usize>::empty() =~= path);
        } else {
            let rest = path.subrange(1, path.len() as int);
            assert(rest[0] == path[1]);
            assert(rest.last() == path.last());
            assert forall|k: int| 0 <= k < rest.len() - 1 implies self@[(#[trigger] rest[k]) as int].descaddr
                == self.spec_address_of(rest[k + 1] as int) by {
                assert(rest[k] == path[k + 1]);
                assert(rest[k + 1] == path[k + 2]);
            }
            assert forall|k: int| 0 <= k < rest.len() implies (#[trigger] rest[k]) < self@.len() by {
                assert(rest[k] == path[k + 1]);
            }
            self.lemma_chain_follows_path(rest, (limit - 1) as nat);
            assert(next == self.spec_address_of(path[1] as int));
            assert(seq![head] + rest =~= path);
        }
    }

    /// A chain visits no more descriptors than its limit, and only
    /// descriptors of the table.
    pub proof fn lemma_chain_is_bounded(&self, first: u32, limit: nat)
        requires
            self.wf(),
        ensures
            self.spec_chain(first, limit).len() <= limit,
            forall|k: int|
                0 <= k < self.spec_chain(first, limit).len() ==> (#[trigger] self.spec_chain(
                    first,
                    limit,
                )[k]) < self@.len(),
        decreases limit,
    {
        if limit > 0 {
            if let Some(index) = self.spec_index_of(first) {
                self.lemma_chain_is_bounded(self@[index as int].descaddr, (limit - 1) as nat);
            }
        }
    }
}

} // verus!
