//! A model: an ordered collection of atoms, with the cell it repeats in where
//! it has one.
use vstd::prelude::*;
use crate::atom::Atom;
use crate::error::InvalidIndex;
use crate::kernel::{
    displacement, displacement_of, functional, rotate_of, translate_of, Kernel, Point3, Rotation,
    Vector3,
};

verus! {

/// The three vectors that span the periodic cell of a model.
#[derive(Debug, Clone)]
pub struct LatticeVectors<S, M> {
    /// The cell vectors a, b and c.
    pub vectors: [Vector3<S>; 3],
    /// What the model's file format records beside the cell.
    pub model_type: M,
}

impl<S, M> LatticeVectors<S, M> {
    /// Creates the cell spanned by `vectors`.
    pub fn new(vectors: [Vector3<S>; 3], model_type: M) -> (cell: Self)
        ensures
            cell == (LatticeVectors { vectors, model_type }),
    {
        Self { vectors, model_type }
    }

    /// The cell vectors a, b and c.
    pub fn vectors(&self) -> (vectors: &[Vector3<S>; 3])
        ensures
            *vectors == self.vectors,
    {
        &self.vectors
    }

    /// What the model's file format records beside the cell.
    pub fn model_type(&self) -> (model_type: &M)
        ensures
            *model_type == self.model_type,
    {
        &self.model_type
    }
}

/// Whether `atom_id` names an atom of a collection of `len` atoms: ids count
/// from one.
pub open spec fn valid_id(atom_id: u32, len: nat) -> bool {
    1 <= atom_id <= len
}

/// Decides whether `atom_id` names an atom of a collection of `len` atoms.
pub fn is_valid_id(atom_id: u32, len: usize) -> (r: bool)
    ensures
        r == valid_id(atom_id, len as nat),
{
    atom_id >= 1 && ((atom_id - 1) as usize) < len
}

/// Where the atoms of a collection are, in order.
pub open spec fn positions<S, M>(atoms: Seq<Atom<S, M>>) -> Seq<Point3<S>> {
    Seq::new(atoms.len(), |i: int| atoms[i].xyz)
}

/// The atoms `atoms`, each put at the place that `places` holds for it.
pub open spec fn placed<S, M>(atoms: Seq<Atom<S, M>>, places: Seq<Point3<S>>) -> Seq<
    Atom<S, M>,
> {
    Seq::new(atoms.len(), |i: int| atoms[i].at(places[i]))
}

/// The places `places`, each turned by `q` about the origin.
pub open spec fn rotated_of<K: Kernel>(q: Rotation<K::Scalar>, places: Seq<Point3<K::Scalar>>) -> Seq<
    Point3<K::Scalar>,
> {
    Seq::new(places.len(), |i: int| rotate_of::<K>(q, places[i]))
}

/// The places `places`, each moved by `v`.
pub open spec fn translated_of<K: Kernel>(
    places: Seq<Point3<K::Scalar>>,
    v: Vector3<K::Scalar>,
) -> Seq<Point3<K::Scalar>> {
    Seq::new(places.len(), |i: int| translate_of::<K>(places[i], v))
}

/// The kernel turned each of the places `before` by the rotation `q`, and
/// `after` is what came back.
pub open spec fn turned_by<K: Kernel>(
    q: Rotation<K::Scalar>,
    before: Seq<Point3<K::Scalar>>,
    after: Seq<Point3<K::Scalar>>,
) -> bool {
    &&& after.len() == before.len()
    &&& forall|i: int|
        0 <= i < before.len() ==> call_ensures(K::rotate, (q, before[i]), #[trigger] after[i])
}

/// The kernel moved each of the places `before` by the displacement `v`, and
/// `after` is what came back.
pub open spec fn shifted_by<K: Kernel>(
    v: Vector3<K::Scalar>,
    before: Seq<Point3<K::Scalar>>,
    after: Seq<Point3<K::Scalar>>,
) -> bool {
    &&& after.len() == before.len()
    &&& forall|i: int|
        0 <= i < before.len() ==> call_ensures(K::translate, (before[i], v), #[trigger] after[i])
}

/// `after` holds the atoms of `before`, in the same order and unchanged but
/// for where they are.
pub open spec fn same_atoms_moved<S, M>(before: Seq<Atom<S, M>>, after: Seq<Atom<S, M>>) -> bool {
    &&& after.len() == before.len()
    &&& after == placed(before, positions(after))
}

/// The atoms `atoms`, each with the number `offset` added to its id.
pub open spec fn renumbered_by<S, M>(atoms: Seq<Atom<S, M>>, offset: nat) -> Seq<Atom<S, M>> {
    Seq::new(atoms.len(), |i: int| atoms[i].renumbered((atoms[i].atom_id + offset) as u32))
}

/// A model: its atoms in the order in which they were put in, and the cell
/// it repeats in where it has one.
#[derive(Debug, Clone)]
pub struct LatticeModel<S, M> {
    /// The periodic cell, where the model has one.
    pub lattice_vectors: Option<LatticeVectors<S, M>>,
    /// The atoms, in insertion order. The atom with id `n` is the `n`-th.
    pub atoms: Vec<Atom<S, M>>,
    /// What the model's file format records beside the model.
    pub model_type: M,
}

impl<S, M> LatticeModel<S, M> {
    /// Every atom goes by the id that is its place in the collection.
    pub open spec fn numbered_in_order(&self) -> bool {
        forall|i: int| 0 <= i < self.atoms@.len() ==> (#[trigger] self.atoms@[i]).atom_id == i + 1
    }

    /// `self` is `before` with its atoms moved: nothing else differs.
    pub open spec fn moved_from(&self, before: &Self) -> bool {
        &&& self.lattice_vectors == before.lattice_vectors
        &&& self.model_type == before.model_type
        &&& same_atoms_moved(before.atoms@, self.atoms@)
    }

    /// The ids of the atoms of `fragment` can be raised by the number of
    /// atoms of `self` without leaving the range of an id.
    pub open spec fn merge_fits(&self, fragment: &Self) -> bool {
        forall|i: int|
            0 <= i < fragment.atoms@.len() ==> (#[trigger] fragment.atoms@[i]).atom_id
                + self.atoms@.len() <= u32::MAX
    }

    /// Creates a model from its parts.
    pub fn new(
        lattice_vectors: Option<LatticeVectors<S, M>>,
        atoms: Vec<Atom<S, M>>,
        model_type: M,
    ) -> (model: Self)
        ensures
            model == (LatticeModel { lattice_vectors, atoms, model_type }),
    {
        Self { lattice_vectors, atoms, model_type }
    }

    /// The periodic cell, where the model has one.
    pub fn lattice_vectors(&self) -> (cell: Option<&LatticeVectors<S, M>>)
        ensures
            cell == match self.lattice_vectors {
                Some(c) => Some(&c),
                None => None,
            },
    {
        self.lattice_vectors.as_ref()
    }

    /// The atoms, in order.
    pub fn atoms(&self) -> (atoms: &[Atom<S, M>])
        ensures
            atoms@ == self.atoms@,
    {
        self.atoms.as_slice()
    }

    /// What the model's file format records beside the model.
    pub fn model_type(&self) -> (model_type: &M)
        ensures
            *model_type == self.model_type,
    {
        &self.model_type
    }

    /// The atom that goes by `atom_id`, which is the `atom_id`-th atom.
    /// Fails exactly where `atom_id` is zero or beyond the last atom.
    pub fn get_atom_by_id(&self, atom_id: u32) -> (atom: Result<&Atom<S, M>, InvalidIndex>)
        ensures
            valid_id(atom_id, self.atoms@.len()) ==> atom == Ok::<&Atom<S, M>, InvalidIndex>(
                &self.atoms@[atom_id - 1],
            ),
            !valid_id(atom_id, self.atoms@.len()) ==> atom is Err,
    {
        if atom_id == 0 {
            return Err(InvalidIndex);
        }
        let index = (atom_id - 1) as usize;
        if index < self.atoms.len() {
            Ok(&self.atoms[index])
        } else {
            Err(InvalidIndex)
        }
    }
}

impl<S, M> LatticeModel<S, M> {
    /// The atoms, to be changed in place.
    pub fn atoms_mut(&mut self) -> (atoms: &mut Vec<Atom<S, M>>)
        ensures
            *atoms == old(self).atoms,
            *final(self) == (LatticeModel { atoms: *final(atoms), ..*old(self) }),
    {
        &mut self.atoms
    }

    /// The atom that goes by `atom_id`, to be changed in place. Fails
    /// exactly where `atom_id` is zero or beyond the last atom, and then
    /// leaves the model as it is.
    pub fn get_mut_atom_by_id(&mut self, atom_id: u32) -> (atom: Result<
        &mut Atom<S, M>,
        InvalidIndex,
    >)
        ensures
            match atom {
                Ok(a) => {
                    &&& valid_id(atom_id, old(self).atoms@.len())
                    &&& *a == old(self).atoms@[atom_id - 1]
                    &&& final(self).atoms@ == old(self).atoms@.update(atom_id - 1, *final(a))
                    &&& final(self).lattice_vectors == old(self).lattice_vectors
                    &&& final(self).model_type == old(self).model_type
                },
                Err(_) => !valid_id(atom_id, old(self).atoms@.len()) && *final(self) == *old(self),
            },
    {
        if !is_valid_id(atom_id, self.atoms.len()) {
            return Err(InvalidIndex);
        }
        let index = (atom_id - 1) as usize;
        Ok(&mut self.atoms[index])
    }
}

/// An element as a model lists it: its symbol and its atomic number.
pub type Listed = (Seq<char>, u32);

/// The element of the atom `atom`.
pub open spec fn element_of<S, M>(atom: Atom<S, M>) -> Listed {
    (atom.element_symbol@, atom.element_id)
}

/// The symbols and atomic numbers that `entries` holds.
pub open spec fn listed(entries: Seq<(String, u32)>) -> Seq<Listed> {
    Seq::new(entries.len(), |i: int| (entries[i].0@, entries[i].1))
}

/// The symbols `names`, each with the atomic number that `numbers` holds for
/// it.
pub open spec fn named(names: Seq<String>, numbers: Seq<u32>) -> Seq<Listed> {
    Seq::new(names.len(), |i: int| (names[i]@, numbers[i]))
}

/// Some atom of `atoms` is of the element `e`.
pub open spec fn has_element<S, M>(atoms: Seq<Atom<S, M>>, e: Listed) -> bool {
    exists|k: int| 0 <= k < atoms.len() && element_of(#[trigger] atoms[k]) == e
}

/// The entries of `list` go by rising atomic number.
pub open spec fn by_rising_number(list: Seq<Listed>) -> bool {
    forall|i: int, j: int|
        0 <= i < j < list.len() ==> (#[trigger] list[i]).1 <= (#[trigger] list[j]).1
}

/// Every entry of `list` is the element of an atom of `atoms`.
pub open spec fn listed_from<S, M>(atoms: Seq<Atom<S, M>>, list: Seq<Listed>) -> bool {
    forall|i: int| 0 <= i < list.len() ==> has_element(atoms, #[trigger] list[i])
}

/// The element of every atom of `atoms` is an entry of `list`.
pub open spec fn lists_all<S, M>(atoms: Seq<Atom<S, M>>, list: Seq<Listed>) -> bool {
    forall|k: int| 0 <= k < atoms.len() ==> list.contains(element_of(#[trigger] atoms[k]))
}

/// `list` is a list of the elements of `atoms`: it holds the element of
/// every atom, holds nothing else, holds nothing twice, and goes by rising
/// atomic number.
pub open spec fn is_element_list<S, M>(atoms: Seq<Atom<S, M>>, list: Seq<Listed>) -> bool {
    &&& by_rising_number(list)
    &&& list.no_duplicates()
    &&& listed_from(atoms, list)
    &&& lists_all(atoms, list)
}

impl<S, M> LatticeModel<S, M> {
    /// Lists the elements of the model, each once, by rising atomic number.
    /// Elements with the same atomic number come in the order in which the
    /// model first holds them.
    pub fn element_pairs(&self) -> (list: Vec<(String, u32)>)
        ensures
            is_element_list(self.atoms@, listed(list@)),
    {
        let mut list: Vec<(String, u32)> = Vec::new();
        let mut n: usize = 0;
        while n < self.atoms.len()
            invariant
                0 <= n <= self.atoms@.len(),
                is_element_list(self.atoms@.take(n as int), listed(list@)),
            decreases self.atoms@.len() - n,
        {
            let atom = &self.atoms[n];
            let ghost entry = element_of(*atom);
            let ghost before = list@;
            let mut found = false;
            let mut j: usize = 0;
            while j < list.len() && !found
                invariant
                    0 <= j <= list@.len(),
                    list@ == before,
                    entry == element_of(self.atoms@[n as int]),
                    *atom == self.atoms@[n as int],
                    !found ==> forall|i: int| 0 <= i < j ==> (#[trigger] listed(before)[i]) != entry,
                    found ==> listed(before).contains(entry),
                decreases list@.len() - j + (if found { 0int } else { 1int }),
            {
                if list[j].1 == atom.element_id && list[j].0 == atom.element_symbol {
                    assert(listed(before)[j as int] == entry);
                    found = true;
                } else {
                    assert(listed(before)[j as int] != entry);
                    j = j + 1;
                }
            }
            if !found {
                let mut k: usize = 0;
                while k < list.len() && list[k].1 <= atom.element_id
                    invariant
                        0 <= k <= list@.len(),
                        list@ == before,
                        *atom == self.atoms@[n as int],
                        forall|i: int|
                            0 <= i < k ==> (#[trigger] listed(before)[i]).1 <= atom.element_id,
                    decreases list@.len() - k,
                {
                    assert(listed(before)[k as int].1 == before[k as int].1);
                    k = k + 1;
                }
                list.insert(k, (atom.element_symbol.clone(), atom.element_id));
                proof {
                    let old_list = listed(before);
                    let new_list = listed(list@);
                    assert(k < before.len() ==> old_list[k as int].1 > atom.element_id);
                    assert(new_list =~= old_list.insert(k as int, entry));
                    lemma_element_list_insert(
                        self.atoms@.take(n as int),
                        self.atoms@[n as int],
                        old_list,
                        k as int,
                    );
                    assert(self.atoms@.take(n + 1) =~= self.atoms@.take(n as int).push(
                        self.atoms@[n as int],
                    ));
                }
            } else {
                proof {
                    lemma_element_list_keep(
                        self.atoms@.take(n as int),
                        self.atoms@[n as int],
                        listed(before),
                    );
                    assert(self.atoms@.take(n + 1) =~= self.atoms@.take(n as int).push(
                        self.atoms@[n as int],
                    ));
                }
            }
            n = n + 1;
        }
        assert(self.atoms@.take(n as int) =~= self.atoms@);
        list
    }

    /// Lists the symbols of the elements of the model, each element once, by
    /// rising atomic number.
    pub fn list_element(&self) -> (names: Vec<String>)
        ensures
            exists|numbers: Seq<u32>|
                numbers.len() == names@.len() && is_element_list(
                    self.atoms@,
                    #[trigger] named(names@, numbers),
                ),
    {
        let list = self.element_pairs();
        let mut names: Vec<String> = Vec::new();
        let mut i: usize = 0;
        while i < list.len()
            invariant
                0 <= i <= list@.len(),
                names@.len() == i,
                forall|j: int| 0 <= j < i ==> (#[trigger] names@[j])@ == list@[j].0@,
            decreases list@.len() - i,
        {
            names.push(list[i].0.clone());
            i = i + 1;
        }
        proof {
            let numbers = Seq::new(list@.len(), |i: int| list@[i].1);
            assert(named(names@, numbers) =~= listed(list@));
        }
        names
    }
}

/// Entries that go by rising atomic number still do after one is put in
/// behind the entries with no greater number and before those with a greater
/// one.
proof fn lemma_rising_insert(list: Seq<Listed>, at: int, entry: Listed)
    requires
        by_rising_number(list),
        0 <= at <= list.len(),
        forall|i: int| 0 <= i < at ==> (#[trigger] list[i]).1 <= entry.1,
        at < list.len() ==> list[at].1 > entry.1,
    ensures
        by_rising_number(list.insert(at, entry)),
{
    let longer = list.insert(at, entry);
    assert forall|i: int, j: int| 0 <= i < j < longer.len() implies (#[trigger] longer[i]).1 <= (
    #[trigger] longer[j]).1 by {
        if i == at {
            assert(longer[j] == list[j - 1]);
            if at < j - 1 {
                assert(list[at].1 <= list[j - 1].1);
            }
        } else if j == at {
            assert(longer[i] == list[i]);
        } else {
            let a = if i < at { i } else { i - 1 };
            let b = if j < at { j } else { j - 1 };
            assert(longer[i] == list[a]);
            assert(longer[j] == list[b]);
        }
    }
}

/// Entries without duplicates still have none after a new one is put in.
proof fn lemma_distinct_insert(list: Seq<Listed>, at: int, entry: Listed)
    requires
        list.no_duplicates(),
        0 <= at <= list.len(),
        !list.contains(entry),
    ensures
        list.insert(at, entry).no_duplicates(),
{
    let longer = list.insert(at, entry);
    assert forall|i: int, j: int| 0 <= i < longer.len() && 0 <= j < longer.len() && i
        != j implies longer[i] != longer[j] by {
        let a = if i < at { i } else { i - 1 };
        let b = if j < at { j } else { j - 1 };
        if i == at {
            assert(longer[j] == list[b]);
            assert(list.contains(list[b]));
        } else if j == at {
            assert(longer[i] == list[a]);
            assert(list.contains(list[a]));
        } else {
            assert(longer[i] == list[a]);
            assert(longer[j] == list[b]);
        }
    }
}

/// What is an element of some atom of `atoms` is one of some atom of `atoms`
/// and `atom`.
proof fn lemma_has_element_push<S, M>(atoms: Seq<Atom<S, M>>, atom: Atom<S, M>, e: Listed)
    requires
        has_element(atoms, e) || e == element_of(atom),
    ensures
        has_element(atoms.push(atom), e),
{
    let more = atoms.push(atom);
    if has_element(atoms, e) {
        let k = choose|k: int| 0 <= k < atoms.len() && element_of(#[trigger] atoms[k]) == e;
        assert(element_of(more[k]) == e);
    } else {
        assert(element_of(more[atoms.len() as int]) == e);
    }
}

/// A list of the elements of `atoms` that holds the element of `atom` is a
/// list of the elements of `atoms` and `atom`.
proof fn lemma_element_list_keep<S, M>(
    atoms: Seq<Atom<S, M>>,
    atom: Atom<S, M>,
    list: Seq<Listed>,
)
    requires
        is_element_list(atoms, list),
        list.contains(element_of(atom)),
    ensures
        is_element_list(atoms.push(atom), list),
{
    let more = atoms.push(atom);
    assert forall|i: int| 0 <= i < list.len() implies has_element(more, #[trigger] list[i]) by {
        lemma_has_element_push(atoms, atom, list[i]);
    }
    assert forall|k: int| 0 <= k < more.len() implies list.contains(
        element_of(#[trigger] more[k]),
    ) by {
        if k < atoms.len() {
            assert(more[k] == atoms[k]);
        }
    }
}

/// A list of the elements of `atoms` that lacks the element of `atom`
/// becomes a list of the elements of `atoms` and `atom` where that element
/// is put in behind the entries with no greater atomic number.
proof fn lemma_element_list_insert<S, M>(
    atoms: Seq<Atom<S, M>>,
    atom: Atom<S, M>,
    list: Seq<Listed>,
    at: int,
)
    requires
        is_element_list(atoms, list),
        0 <= at <= list.len(),
        !list.contains(element_of(atom)),
        forall|i: int| 0 <= i < at ==> (#[trigger] list[i]).1 <= atom.element_id,
        at < list.len() ==> list[at].1 > atom.element_id,
    ensures
        is_element_list(atoms.push(atom), list.insert(at, element_of(atom))),
{
    let more = atoms.push(atom);
    let entry = element_of(atom);
    let longer = list.insert(at, entry);
    lemma_rising_insert(list, at, entry);
    lemma_distinct_insert(list, at, entry);
    assert forall|i: int| 0 <= i < longer.len() implies has_element(
        more,
        #[trigger] longer[i],
    ) by {
        if i != at {
            let a = if i < at { i } else { i - 1 };
            assert(longer[i] == list[a]);
        }
        lemma_has_element_push(atoms, atom, longer[i]);
    }
    assert forall|k: int| 0 <= k < more.len() implies longer.contains(
        element_of(#[trigger] more[k]),
    ) by {
        if k < atoms.len() {
            assert(more[k] == atoms[k]);
            let e = element_of(atoms[k]);
            let i = choose|i: int| 0 <= i < list.len() && list[i] == e;
            let b = if i < at { i } else { i + 1 };
            assert(longer[b] == e);
        } else {
            assert(longer[at] == element_of(more[k]));
        }
    }
}

impl<S: Copy, M> LatticeModel<S, M> {
    /// The vector that leads from atom `a_id` to atom `b_id`. Fails exactly
    /// where one of the two ids names no atom.
    pub fn get_vector_ab<K: Kernel<Scalar = S>>(&self, a_id: u32, b_id: u32) -> (v: Result<
        Vector3<S>,
        InvalidIndex,
    >)
        ensures
            v is Ok <==> valid_id(a_id, self.atoms@.len()) && valid_id(b_id, self.atoms@.len()),
            v is Ok ==> call_ensures(
                K::displacement,
                (self.atoms@[b_id - 1].xyz, self.atoms@[a_id - 1].xyz),
                v->Ok_0,
            ),
            functional::<K>() && v is Ok ==> v->Ok_0 == displacement_of::<K>(
                self.atoms@[b_id - 1].xyz,
                self.atoms@[a_id - 1].xyz,
            ),
    {
        let atom_a = self.get_atom_by_id(a_id)?;
        let atom_b = self.get_atom_by_id(b_id)?;
        Ok(displacement::<K>(atom_b.xyz, atom_a.xyz))
    }

    /// Turns every atom about the origin by one and the same rotation.
    /// Nothing but the positions changes.
    pub fn rotate<K: Kernel<Scalar = S>>(&mut self, rotation: &Rotation<S>)
        ensures
            final(self).moved_from(old(self)),
            turned_by::<K>(*rotation, positions(old(self).atoms@), positions(final(self).atoms@)),
            functional::<K>() ==> positions(final(self).atoms@) == rotated_of::<K>(
                *rotation,
                positions(old(self).atoms@),
            ),
    {
        let n = self.atoms.len();
        let mut i: usize = 0;
        while i < n
            invariant
                0 <= i <= n,
                n == old(self).atoms@.len(),
                self.atoms@.len() == n,
                self.lattice_vectors == old(self).lattice_vectors,
                self.model_type == old(self).model_type,
                forall|j: int|
                    0 <= j < n ==> #[trigger] self.atoms@[j] == old(self).atoms@[j].at(
                        self.atoms@[j].xyz,
                    ),
                forall|j: int| i <= j < n ==> #[trigger] self.atoms@[j] == old(self).atoms@[j],
                forall|j: int|
                    0 <= j < i ==> call_ensures(
                        K::rotate,
                        (*rotation, old(self).atoms@[j].xyz),
                        #[trigger] self.atoms@[j].xyz,
                    ),
                functional::<K>() ==> forall|j: int|
                    0 <= j < i ==> #[trigger] self.atoms@[j].xyz == rotate_of::<K>(
                        *rotation,
                        old(self).atoms@[j].xyz,
                    ),
            decreases n - i,
        {
            self.atoms[i].rotate::<K>(rotation);
            i = i + 1;
        }
        assert(self.atoms@ =~= placed(old(self).atoms@, positions(self.atoms@)));
        assert(functional::<K>() ==> positions(self.atoms@) =~= rotated_of::<K>(
            *rotation,
            positions(old(self).atoms@),
        ));
        assert forall|j: int| 0 <= j < n implies call_ensures(
            K::rotate,
            (*rotation, positions(old(self).atoms@)[j]),
            #[trigger] positions(self.atoms@)[j],
        ) by {
            assert(call_ensures(K::rotate, (*rotation, old(self).atoms@[j].xyz), self.atoms@[j].xyz));
        }
    }

    /// Moves every atom by one and the same displacement. Nothing but the
    /// positions changes.
    pub fn translate<K: Kernel<Scalar = S>>(&mut self, translation: &Vector3<S>)
        ensures
            final(self).moved_from(old(self)),
            shifted_by::<K>(
                *translation,
                positions(old(self).atoms@),
                positions(final(self).atoms@),
            ),
            functional::<K>() ==> positions(final(self).atoms@) == translated_of::<K>(
                positions(old(self).atoms@),
                *translation,
            ),
    {
        let n = self.atoms.len();
        let mut i: usize = 0;
        while i < n
            invariant
                0 <= i <= n,
                n == old(self).atoms@.len(),
                self.atoms@.len() == n,
                self.lattice_vectors == old(self).lattice_vectors,
                self.model_type == old(self).model_type,
                forall|j: int|
                    0 <= j < n ==> #[trigger] self.atoms@[j] == old(self).atoms@[j].at(
                        self.atoms@[j].xyz,
                    ),
                forall|j: int| i <= j < n ==> #[trigger] self.atoms@[j] == old(self).atoms@[j],
                forall|j: int|
                    0 <= j < i ==> call_ensures(
                        K::translate,
                        (old(self).atoms@[j].xyz, *translation),
                        #[trigger] self.atoms@[j].xyz,
                    ),
                functional::<K>() ==> forall|j: int|
                    0 <= j < i ==> #[trigger] self.atoms@[j].xyz == translate_of::<K>(
                        old(self).atoms@[j].xyz,
                        *translation,
                    ),
            decreases n - i,
        {
            self.atoms[i].translate::<K>(translation);
            i = i + 1;
        }
        assert(self.atoms@ =~= placed(old(self).atoms@, positions(self.atoms@)));
        assert(functional::<K>() ==> positions(self.atoms@) =~= translated_of::<K>(
            positions(old(self).atoms@),
            *translation,
        ));
        assert forall|j: int| 0 <= j < n implies call_ensures(
            K::translate,
            (positions(old(self).atoms@)[j], *translation),
            #[trigger] positions(self.atoms@)[j],
        ) by {
            assert(call_ensures(
                K::translate,
                (old(self).atoms@[j].xyz, *translation),
                self.atoms@[j].xyz,
            ));
        }
    }
}

impl<S, M> LatticeModel<S, M> {
    /// Decides whether the ids of the atoms of `fragment` can be raised by
    /// the number of atoms of `self` without leaving the range of an id.
    pub fn fits_for_merge(&self, fragment: &Self) -> (fits: bool)
        ensures
            fits == self.merge_fits(fragment),
    {
        let offset = self.atoms.len();
        let mut i: usize = 0;
        while i < fragment.atoms.len()
            invariant
                0 <= i <= fragment.atoms@.len(),
                offset == self.atoms@.len(),
                forall|j: int|
                    0 <= j < i ==> (#[trigger] fragment.atoms@[j]).atom_id + offset <= u32::MAX,
            decreases fragment.atoms@.len() - i,
        {
            if offset > 0xffff_ffff || fragment.atoms[i].atom_id > 0xffff_ffff - (offset as u32) {
                return false;
            }
            i = i + 1;
        }
        true
    }

    /// Appends the atoms of `fragment` to the atoms of `self`, after raising
    /// each of their ids by the number of atoms that `self` holds. The cell
    /// and the atoms of `self` stay as they are. Where both models number
    /// their atoms in order, so does the merged one.
    pub fn merge(self, fragment: Self) -> (merged: Self)
        requires
            self.merge_fits(&fragment),
        ensures
            merged.lattice_vectors == self.lattice_vectors,
            merged.model_type == self.model_type,
            merged.atoms@ == self.atoms@ + renumbered_by(fragment.atoms@, self.atoms@.len()),
            self.numbered_in_order() && fragment.numbered_in_order()
                ==> merged.numbered_in_order(),
    {
        let mut merged = self;
        let mut fragment = fragment;
        let offset = merged.atoms.len();
        let n = fragment.atoms.len();
        let ghost before = fragment.atoms@;
        let mut i: usize = 0;
        while i < n
            invariant
                0 <= i <= n,
                n == before.len(),
                fragment.atoms@.len() == n,
                offset == merged.atoms@.len(),
                merged == self,
                forall|j: int|
                    0 <= j < n ==> (#[trigger] before[j]).atom_id + offset <= u32::MAX,
                forall|j: int| i <= j < n ==> #[trigger] fragment.atoms@[j] == before[j],
                forall|j: int|
                    0 <= j < i ==> #[trigger] fragment.atoms@[j] == before[j].renumbered(
                        (before[j].atom_id + offset) as u32,
                    ),
            decreases n - i,
        {
            assert(before[i as int].atom_id + offset <= u32::MAX);
            let raised = fragment.atoms[i].atom_id as usize + offset;
            fragment.atoms[i].set_atom_id(raised as u32);
            i = i + 1;
        }
        assert(fragment.atoms@ =~= renumbered_by(before, offset as nat));
        merged.atoms.append(&mut fragment.atoms);
        merged
    }
}

} // verus!
