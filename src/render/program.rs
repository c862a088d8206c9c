//! Linked programs and their caches of attribute and uniform locations.
use vstd::prelude::*;
use vstd::utf8::{decode_utf8, valid_utf8};
use crate::binding::{Bindable, ResourceKind, Unbound};
use crate::glenum::TRUE;
use crate::text::{contains_nul, utf8_to_string};

verus! {

/// A map from shader variable names to the locations the driver gave them.
pub struct LocationCache {
    entries: Vec<(String, u32)>,
}

impl View for LocationCache {
    type V = Map<Seq<char>, u32>;

    closed spec fn view(&self) -> Map<Seq<char>, u32> {
        Map::new(|k: Seq<char>| self.has(k), |k: Seq<char>| self.entries@[self.index_of(k)].1)
    }
}

impl LocationCache {
    /// No name is held twice.
    pub closed spec fn wf(&self) -> bool {
        forall|i: int, j: int|
            0 <= i < j < self.entries@.len() ==> self.entries@[i].0@ != self.entries@[j].0@
    }

    closed spec fn has(&self, name: Seq<char>) -> bool {
        exists|i: int| 0 <= i < self.entries@.len() && self.entries@[i].0@ == name
    }

    closed spec fn index_of(&self, name: Seq<char>) -> int {
        choose|i: int| 0 <= i < self.entries@.len() && self.entries@[i].0@ == name
    }

    proof fn lemma_index_of(&self, i: int)
        requires
            self.wf(),
            0 <= i < self.entries@.len(),
        ensures
            self.has(self.entries@[i].0@),
            self.index_of(self.entries@[i].0@) == i,
            self@.contains_key(self.entries@[i].0@),
            self@[self.entries@[i].0@] == self.entries@[i].1,
    {
        let k = self.entries@[i].0@;
        assert(self.has(k));
        let j = self.index_of(k);
        if j != i {
            if j < i {
                assert(self.entries@[j].0@ != self.entries@[i].0@);
            } else {
                assert(self.entries@[i].0@ != self.entries@[j].0@);
            }
        }
    }

    /// An empty cache.
    pub fn new() -> (r: Self)
        ensures
            r.wf(),
            r@ == Map::<Seq<char>, u32>::empty(),
    {
        let r = LocationCache { entries: Vec::new() };
        assert(r@ =~= Map::<Seq<char>, u32>::empty());
        r
    }

    /// The location cached for `name`.
    pub fn get(&self, name: &str) -> (r: Option<u32>)
        requires
            self.wf(),
        ensures
            r == (if self@.contains_key(name@) {
                Some(self@[name@])
            } else {
                None::<u32>
            }),
    {
        let key = name.to_owned();
        let mut i: usize = 0;
        while i < self.entries.len()
            invariant
                self.wf(),
                key@ == name@,
                i <= self.entries@.len(),
                forall|j: int| 0 <= j < i ==> self.entries@[j].0@ != name@,
            decreases self.entries@.len() - i,
        {
            if self.entries[i].0 == key {
                proof {
                    self.lemma_index_of(i as int);
                }
                return Some(self.entries[i].1);
            }
            i = i + 1;
        }
        assert(!self@.contains_key(name@));
        None
    }

    /// Whether a location is cached for `name`.
    pub fn contains_key(&self, name: &str) -> (r: bool)
        requires
            self.wf(),
        ensures
            r == self@.contains_key(name@),
    {
        self.get(name).is_some()
    }

    /// Caches `location` for `name`, which holds none yet.
    pub fn insert(&mut self, name: &str, location: u32)
        requires
            old(self).wf(),
            !old(self)@.contains_key(name@),
        ensures
            final(self).wf(),
            final(self)@ == old(self)@.insert(name@, location),
    {
        let ghost before = *self;
        self.entries.push((name.to_owned(), location));
        proof {
            let n = before.entries@.len() as int;
            assert(self.entries@[n].0@ == name@);
            assert forall|i: int, j: int| 0 <= i < j < self.entries@.len() implies self.entries@[i].0@
                != self.entries@[j].0@ by {
                if j == n {
                    assert(before.entries@[i].0@ != name@) by {
                        if before.entries@[i].0@ == name@ {
                            assert(before.has(name@));
                        }
                    }
                } else {
                    assert(before.entries@[i] == self.entries@[i]);
                    assert(before.entries@[j] == self.entries@[j]);
                }
            }
            assert forall|k: Seq<char>| #[trigger]
                self@.contains_key(k) == before@.insert(name@, location).contains_key(k) by {
                if self.has(k) {
                    let i = self.index_of(k);
                    if i < n {
                        assert(before.entries@[i] == self.entries@[i]);
                        assert(before.has(k));
                    }
                }
                if before.has(k) {
                    let i = before.index_of(k);
                    assert(before.entries@[i] == self.entries@[i]);
                    assert(self.has(k));
                }
                if k == name@ {
                    assert(self.has(k));
                }
            }
            assert forall|k: Seq<char>| #[trigger]
                self@.contains_key(k) implies self@[k] == before@.insert(name@, location)[k] by {
                let i = self.index_of(k);
                self.lemma_index_of(i);
                if i < n {
                    assert(before.entries@[i] == self.entries@[i]);
                    before.lemma_index_of(i);
                }
            }
            assert(self@ =~= before@.insert(name@, location));
        }
    }

    /// Forgets every name.
    pub fn clear(&mut self)
        ensures
            final(self).wf(),
            final(self)@ == Map::<Seq<char>, u32>::empty(),
    {
        self.entries.clear();
        assert(self@ =~= Map::<Seq<char>, u32>::empty());
    }

    /// Every cached location, once for each name.
    pub fn locations(&self) -> (r: Vec<u32>)
        requires
            self.wf(),
        ensures
            forall|l: u32| r@.contains(l) <==> self@.values().contains(l),
    {
        let mut r: Vec<u32> = Vec::new();
        let mut i: usize = 0;
        while i < self.entries.len()
            invariant
                i <= self.entries@.len(),
                r@.len() == i,
                forall|j: int| 0 <= j < i ==> r@[j] == self.entries@[j].1,
            decreases self.entries@.len() - i,
        {
            r.push(self.entries[i].1);
            i = i + 1;
        }
        proof {
            assert forall|l: u32| r@.contains(l) <==> self@.values().contains(l) by {
                if r@.contains(l) {
                    let j = choose|j: int| 0 <= j < r@.len() && r@[j] == l;
                    self.lemma_index_of(j);
                    assert(self@.contains_key(self.entries@[j].0@));
                }
                if self@.values().contains(l) {
                    let k = choose|k: Seq<char>| self@.contains_key(k) && self@[k] == l;
                    let j = self.index_of(k);
                    assert(self.has(k));
                    assert(r@[j] == l);
                }
            }
        }
        r
    }
}

/// What loading `name` into a cache that maps as `cache` comes to, when the driver
/// reports `location` for it: the new map, or the error text.
pub open spec fn load_result(cache: Map<Seq<char>, u32>, name: Seq<char>, location: i32) -> Result<
    Map<Seq<char>, u32>,
    Seq<char>,
> {
    if cache.contains_key(name) {
        Ok(cache)
    } else if name.contains('\0') {
        Err("Invalid name!"@)
    } else if location < 0 {
        Err("Could not find id!"@)
    } else {
        Ok(cache.insert(name, location as u32))
    }
}

/// What linking comes to when the driver reports `status`, a log length of
/// `log_len` and the log bytes `log`: the error text, or None on success.
pub open spec fn link_outcome(status: i32, log_len: i32, log: Seq<u8>) -> Option<Seq<char>> {
    if status == TRUE as i32 {
        None
    } else if log_len < 0 {
        Some(Seq::<char>::empty())
    } else if valid_utf8(log) {
        Some(decode_utf8(log))
    } else {
        Some("ProgramInfoLog not a valid utf8 string"@)
    }
}

/// A linked program: its handle and the locations of the attributes and uniforms
/// loaded so far.
pub struct Program {
    id: u32,
    uniform_ids: LocationCache,
    attrib_ids: LocationCache,
}

impl Bindable for Program {
    open spec fn spec_kind() -> ResourceKind {
        ResourceKind::Program
    }

    open spec fn spec_target(&self) -> u32 {
        0
    }

    closed spec fn spec_handle(&self) -> u32 {
        self.id
    }

    fn kind() -> (k: ResourceKind) {
        ResourceKind::Program
    }

    fn target(&self) -> (t: u32) {
        0
    }

    fn handle(&self) -> (h: u32) {
        self.id
    }
}

impl Program {
    pub closed spec fn wf(&self) -> bool {
        self.uniform_ids.wf() && self.attrib_ids.wf()
    }

    pub closed spec fn uniforms(&self) -> Map<Seq<char>, u32> {
        self.uniform_ids@
    }

    pub closed spec fn attributes(&self) -> Map<Seq<char>, u32> {
        self.attrib_ids@
    }

    /// The program object `id`, given what the driver reported after linking it:
    /// the link status, the length of the info log and the log's bytes. A failed
    /// link fails with the log text, unless the log is no valid UTF-8.
    pub fn new(id: u32, link_status: i32, log_len: i32, log: &Vec<u8>) -> (r: Result<
        Unbound<Program>,
        String,
    >)
        ensures
            r is Ok <==> link_outcome(link_status, log_len, log@) is None,
            r matches Ok(u) ==> u.resource().spec_handle() == id && u.resource().wf()
                && u.resource().uniforms() == Map::<Seq<char>, u32>::empty()
                && u.resource().attributes() == Map::<Seq<char>, u32>::empty(),
            r matches Err(e) ==> Some(e@) == link_outcome(link_status, log_len, log@),
    {
        if link_status == TRUE as i32 {
            return Ok(
                Unbound::from(
                    Program { id, uniform_ids: LocationCache::new(), attrib_ids: LocationCache::new() },
                ),
            );
        }
        if log_len < 0 {
            return Err(String::new());
        }
        match utf8_to_string(log) {
            Some(msg) => Err(msg),
            None => Err(String::from_str("ProgramInfoLog not a valid utf8 string")),
        }
    }

    /// The location for `name`, given what the driver reported for it.
    fn get_id_of(name: &str, location: i32) -> (r: Result<u32, &'static str>)
        ensures
            name@.contains('\0') ==> (r matches Err(e) && e@ == "Invalid name!"@),
            !name@.contains('\0') && location < 0 ==> (r matches Err(e) && e@
                == "Could not find id!"@),
            !name@.contains('\0') && location >= 0 ==> r == Ok::<u32, &'static str>(
                location as u32,
            ),
    {
        if contains_nul(name) {
            return Err("Invalid name!");
        }
        if location < 0 {
            return Err("Could not find id!");
        }
        Ok(location as u32)
    }

    /// Loads the location of uniform `name`, unless it is cached already;
    /// `location` is what the driver reports for the name.
    pub fn load_uniform(&mut self, name: &str, location: i32) -> (r: Result<(), String>)
        requires
            old(self).wf(),
        ensures
            final(self).wf(),
            final(self).spec_handle() == old(self).spec_handle(),
            final(self).attributes() == old(self).attributes(),
            match load_result(old(self).uniforms(), name@, location) {
                Ok(m) => r is Ok && final(self).uniforms() == m,
                Err(msg) => (r matches Err(e) && e@ == msg) && *final(self) == *old(self),
            },
    {
        if !self.uniform_ids.contains_key(name) {
            match Self::get_id_of(name, location) {
                Ok(u_id) => self.uniform_ids.insert(name, u_id),
                Err(e) => return Err(String::from_str(e)),
            }
        }
        Ok(())
    }

    /// Loads the location of sampler `name`; samplers are uniforms.
    pub fn load_sampler(&mut self, name: &str, location: i32) -> (r: Result<(), String>)
        requires
            old(self).wf(),
        ensures
            final(self).wf(),
            final(self).spec_handle() == old(self).spec_handle(),
            final(self).attributes() == old(self).attributes(),
            match load_result(old(self).uniforms(), name@, location) {
                Ok(m) => r is Ok && final(self).uniforms() == m,
                Err(msg) => (r matches Err(e) && e@ == msg) && *final(self) == *old(self),
            },
    {
        self.load_uniform(name, location)
    }

    /// Loads the location of attribute `name`, unless it is cached already;
    /// `location` is what the driver reports for the name.
    pub fn load_attribute(&mut self, name: &str, location: i32) -> (r: Result<(), String>)
        requires
            old(self).wf(),
        ensures
            final(self).wf(),
            final(self).spec_handle() == old(self).spec_handle(),
            final(self).uniforms() == old(self).uniforms(),
            match load_result(old(self).attributes(), name@, location) {
                Ok(m) => r is Ok && final(self).attributes() == m,
                Err(msg) => (r matches Err(e) && e@ == msg) && *final(self) == *old(self),
            },
    {
        if !self.attrib_ids.contains_key(name) {
            match Self::get_id_of(name, location) {
                Ok(a_id) => self.attrib_ids.insert(name, a_id),
                Err(e) => return Err(String::from_str(e)),
            }
        }
        Ok(())
    }

    /// Forgets every loaded location.
    pub fn clear_all_loaded(&mut self)
        ensures
            final(self).wf(),
            final(self).spec_handle() == old(self).spec_handle(),
            final(self).uniforms() == Map::<Seq<char>, u32>::empty(),
            final(self).attributes() == Map::<Seq<char>, u32>::empty(),
    {
        self.uniform_ids.clear();
        self.attrib_ids.clear();
    }

    /// The cache of attribute locations.
    pub fn get_attribute_hashmap(&self) -> (r: &LocationCache)
        ensures
            r@ == self.attributes(),
            self.wf() ==> r.wf(),
    {
        &self.attrib_ids
    }

    /// The cache of uniform locations.
    pub fn get_uniform_hashmap(&self) -> (r: &LocationCache)
        ensures
            r@ == self.uniforms(),
            self.wf() ==> r.wf(),
    {
        &self.uniform_ids
    }

    /// The loaded location of uniform `name`.
    pub fn get_uniform_id(&self, name: &str) -> (r: Option<u32>)
        requires
            self.wf(),
        ensures
            r == (if self.uniforms().contains_key(name@) {
                Some(self.uniforms()[name@])
            } else {
                None::<u32>
            }),
    {
        self.uniform_ids.get(name)
    }

    /// The loaded location of attribute `name`.
    pub fn get_attribute_id(&self, name: &str) -> (r: Option<u32>)
        requires
            self.wf(),
        ensures
            r == (if self.attributes().contains_key(name@) {
                Some(self.attributes()[name@])
            } else {
                None::<u32>
            }),
    {
        self.attrib_ids.get(name)
    }

    /// The loaded location of sampler `name`.
    pub fn get_sampler_id(&self, name: &str) -> (r: Option<u32>)
        requires
            self.wf(),
        ensures
            r == (if self.uniforms().contains_key(name@) {
                Some(self.uniforms()[name@])
            } else {
                None::<u32>
            }),
    {
        self.get_uniform_id(name)
    }

    /// The driver's handle of the program.
    pub fn get_id(&self) -> (r: u32)
        ensures
            r == self.spec_handle(),
    {
        self.id
    }
}

} // verus!
