//! The registry of live passcode generators.
//!
//! It maps the id of a stored field to the generator made from the field's
//! secret. It lives in memory only, holds a bounded number of generators, and
//! is filled again from the store whenever a record is opened.

use crate::error::RegistryError;
use crate::kind::ValueKind;
use crate::model::{clock, Content, ContentView};
use crate::otp::{generator_of, Generator, GeneratorView};
use crate::secret::SecretValue;
use std::collections::HashMap;
use vstd::prelude::*;

verus! {

broadcast use vstd::std_specs::hash::group_hash_axioms;

/// A bounded registry of passcode generators, keyed by content id.
pub struct TOTPManager {
    capacity: usize,
    entries: HashMap<u64, Generator>,
}

/// The registry that results from registering the generator of `secret`,
/// a shared secret or an `otpauth` address, under `id` in `before`, which
/// has room for it.
pub open spec fn with_secret(
    before: Map<u64, GeneratorView>,
    id: u64,
    secret: Seq<char>,
) -> Map<u64, GeneratorView>
    recommends
        generator_of(secret) is Some,
{
    before.insert(id, generator_of(secret)->0)
}

/// The registry that results from loading `content` into an empty registry
/// of the given capacity: each passcode secret is registered under the id
/// of its field, in order, for as long as there is room.
pub open spec fn loaded(capacity: nat, content: Seq<ContentView>) -> Map<u64, GeneratorView>
    decreases content.len(),
{
    if content.len() == 0 {
        Map::empty()
    } else {
        let before = loaded(capacity, content.drop_last());
        let field = content.last();
        if field.value.kind == ValueKind::TOTPSecret && before.len() < capacity && generator_of(
            field.value.text,
        ) is Some {
            with_secret(before, field.id, field.value.text)
        } else {
            before
        }
    }
}

impl TOTPManager {
    #[verifier::type_invariant]
    closed spec fn bounded(&self) -> bool {
        self.entries@.dom().finite() && self.entries@.len() <= self.capacity
    }

    /// How many generators the registry has room for.
    pub closed spec fn capacity(&self) -> nat {
        self.capacity as nat
    }

    /// The generators in the registry.
    pub closed spec fn generators(&self) -> Map<u64, GeneratorView> {
        self.entries@.map_values(|g: Generator| g@)
    }

    /// An empty registry with room for `size` generators.
    pub fn new(size: usize) -> (manager: TOTPManager)
        ensures
            manager.capacity() == size,
            manager.generators() == Map::<u64, GeneratorView>::empty(),
    {
        let manager = TOTPManager { capacity: size, entries: HashMap::with_capacity(size) };
        assert(manager.generators() =~= Map::<u64, GeneratorView>::empty());
        manager
    }

    /// Number of generators in the registry.
    pub fn len(&self) -> (n: usize)
        ensures
            n == self.generators().len(),
            self.generators().dom().finite(),
            n <= self.capacity(),
    {
        proof {
            use_type_invariant(self);
            assert(self.generators().dom() =~= self.entries@.dom());
        }
        self.entries.len()
    }

    /// Whether a generator is registered under `id`.
    pub fn contains(&self, id: &u64) -> (found: bool)
        ensures
            found == self.generators().contains_key(*id),
    {
        self.entries.contains_key(id)
    }

    /// Registers the generator of `secret`, a shared secret in base32 or an
    /// `otpauth` address, under `id`, replacing the one that was there. A
    /// full registry refuses before it looks at the secret, and a refusal of
    /// either kind leaves the registry as it was.
    pub fn add_secret(&mut self, id: u64, secret: String) -> (added: Result<(), RegistryError>)
        ensures
            final(self).capacity() == old(self).capacity(),
            match added {
                Ok(_) => {
                    &&& old(self).generators().len() < old(self).capacity()
                    &&& generator_of(secret@) is Some
                    &&& final(self).generators() == with_secret(
                        old(self).generators(),
                        id,
                        secret@,
                    )
                },
                Err(RegistryError::Full) => {
                    &&& old(self).generators().len() == old(self).capacity()
                    &&& final(self).generators() == old(self).generators()
                },
                Err(RegistryError::InvalidSecret) => {
                    &&& old(self).generators().len() < old(self).capacity()
                    &&& generator_of(secret@) is None
                    &&& final(self).generators() == old(self).generators()
                },
            },
    {
        proof {
            use_type_invariant(&*self);
            assert(self.generators().dom() =~= self.entries@.dom());
        }
        if self.entries.len() == self.capacity {
            return Err(RegistryError::Full);
        }
        let secret = SecretValue::new(secret);
        match Generator::from_text(secret.expose_secret()) {
            Some(generator) => {
                let ghost before = self.entries@;
                let ghost made = generator;
                let mut entries = HashMap::new();
                std::mem::swap(&mut self.entries, &mut entries);
                entries.insert(id, generator);
                proof {
                    if before.contains_key(id) {
                        assert(before.insert(id, made).dom() =~= before.dom());
                    }
                }
                self.entries = entries;
                proof {
                    assert(self.entries@ == before.insert(id, made));
                    assert(self.generators() =~= with_secret(
                        before.map_values(|g: Generator| g@),
                        id,
                        secret@,
                    ));
                }
                Ok(())
            },
            None => Err(RegistryError::InvalidSecret),
        }
    }

    /// The code that the generator under `id` gives for `time` (seconds
    /// since the Unix epoch), with the seconds for which it stays valid.
    pub fn code_at(&self, id: &u64, time: u64) -> (code: Option<(String, u64)>)
        ensures
            match code {
                Some((digits, ttl)) => {
                    &&& self.generators().contains_key(*id)
                    &&& digits@ == self.generators()[*id].code_at(time)
                    &&& ttl == self.generators()[*id].ttl_at(time)
                },
                None => !self.generators().contains_key(*id),
            },
    {
        match self.entries.get(id) {
            Some(generator) => Some((generator.code_at(time), generator.ttl_at(time))),
            None => None,
        }
    }

    /// The code that the generator under `id` gives now, with the seconds for
    /// which it stays valid. `None` where nothing is registered under `id`,
    /// or where the clock of the machine stands before the Unix epoch.
    pub fn get_code(&self, id: &u64) -> (code: Option<(String, u64)>)
        ensures
            !self.generators().contains_key(*id) ==> code is None,
            code matches Some((digits, ttl)) ==> exists|time: u64|
                digits@ == #[trigger] self.generators()[*id].code_at(time) && ttl
                    == self.generators()[*id].ttl_at(time),
    {
        match clock() {
            Ok((time, _)) => self.code_at(id, time),
            Err(_) => None,
        }
    }

    /// Takes the generator under `id` out, if there is one.
    pub fn remove(&mut self, id: &u64)
        ensures
            final(self).capacity() == old(self).capacity(),
            final(self).generators() == old(self).generators().remove(*id),
    {
        proof {
            use_type_invariant(&*self);
        }
        let ghost before = self.entries@;
        let mut entries = HashMap::new();
        std::mem::swap(&mut self.entries, &mut entries);
        entries.remove(id);
        proof {
            assert(entries@ == before.remove(*id));
            if before.contains_key(*id) {
                before.lemma_remove_key_len(*id);
            } else {
                assert(before.remove(*id) =~= before);
            }
        }
        self.entries = entries;
        proof {
            assert(self.generators() =~= before.map_values(|g: Generator| g@).remove(*id));
        }
    }

    /// Takes the generator of `content` out where the field holds a passcode
    /// secret: once the field is saved anew, what is registered for it may
    /// be stale. Any other field leaves the registry as it is.
    pub fn forget(&mut self, content: &Content)
        ensures
            final(self).capacity() == old(self).capacity(),
            final(self).generators() == (if content@.value.kind == ValueKind::TOTPSecret {
                old(self).generators().remove(content@.id)
            } else {
                old(self).generators()
            }),
    {
        if content.value().kind() == ValueKind::TOTPSecret {
            let id = content.id();
            self.remove(&id);
        }
    }

    /// Takes every generator out.
    pub fn reset(&mut self)
        ensures
            final(self).capacity() == old(self).capacity(),
            final(self).generators() == Map::<u64, GeneratorView>::empty(),
    {
        self.entries = HashMap::new();
        assert(self.generators() =~= Map::<u64, GeneratorView>::empty());
    }

    /// Fills the registry anew from the content of a record: every passcode
    /// secret is registered under the id of its field, in order, for as long
    /// as there is room.
    pub fn reload(&mut self, content: &Vec<Content>)
        ensures
            final(self).capacity() == old(self).capacity(),
            final(self).generators() == loaded(
                old(self).capacity(),
                content@.map_values(|c: Content| c@),
            ),
    {
        self.reset();
        let ghost fields = content@.map_values(|c: Content| c@);
        let ghost capacity = self.capacity();
        let mut i: usize = 0;
        while i < content.len()
            invariant
                i <= content.len(),
                fields == content@.map_values(|c: Content| c@),
                self.capacity() == capacity,
                self.generators() == loaded(capacity, fields.subrange(0, i as int)),
            decreases content.len() - i,
        {
            let field = &content[i];
            proof {
                let upto = fields.subrange(0, i + 1);
                assert(upto.drop_last() =~= fields.subrange(0, i as int));
                assert(upto.last() == field@);
            }
            if field.value().kind() == ValueKind::TOTPSecret {
                let _ = self.add_secret(field.id(), field.value().to_plain_string());
            }
            i += 1;
        }
        assert(fields.subrange(0, content.len() as int) =~= fields);
    }
}

} // verus!
