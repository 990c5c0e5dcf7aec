use crate::host::Host;
use crate::sharing::share;
use std::sync::Arc;
use vstd::map::*;
use vstd::prelude::*;

verus! {

/// Names a recipe within a collection.
#[derive(Debug)]
pub struct RecipeId(pub String);

impl View for RecipeId {
    type V = Seq<char>;

    open spec fn view(&self) -> Seq<char> {
        self.0@
    }
}

impl Clone for RecipeId {
    fn clone(&self) -> (copy: Self)
        ensures
            copy == *self,
    {
        RecipeId(self.0.clone())
    }
}

/// Names a profile within a collection.
#[derive(Debug)]
pub struct ProfileId(pub String);

impl Clone for ProfileId {
    fn clone(&self) -> (copy: Self)
        ensures
            copy == *self,
    {
        ProfileId(self.0.clone())
    }
}

/// A recipe under its name.
struct RecipeEntry<H: Host> {
    id: RecipeId,
    recipe: Arc<H::Recipe>,
}

/// The recipes that the user can send, along with the rest of their collection.
pub struct Collection<H: Host> {
    entries: Vec<RecipeEntry<H>>,
    data: Option<Arc<H::CollectionData>>,
}

impl<H: Host> Collection<H> {
    /// No two recipes share an ID.
    #[verifier::type_invariant]
    closed spec fn distinct_ids(self) -> bool {
        forall|i: int, j: int|
            0 <= i < j < self.entries@.len() ==> (#[trigger] self.entries@[i]).id@ != (
            #[trigger] self.entries@[j]).id@
    }

    spec fn entry_at(self, i: int, id: Seq<char>) -> bool {
        0 <= i < self.entries@.len() && self.entries@[i].id@ == id
    }

    /// The recipes by ID.
    pub closed spec fn recipes(self) -> Map<Seq<char>, Arc<H::Recipe>> {
        Map::new(
            |id: Seq<char>| exists|i: int| #[trigger] self.entry_at(i, id),
            |id: Seq<char>| self.entries@[choose|i: int| #[trigger] self.entry_at(i, id)].recipe,
        )
    }

    /// The rest of the collection; `None` where no file was loaded.
    pub closed spec fn data(self) -> Option<Arc<H::CollectionData>> {
        self.data
    }

    /// A collection with nothing in it.
    pub fn empty() -> (collection: Self)
        ensures
            collection.recipes() == Map::<Seq<char>, Arc<H::Recipe>>::empty(),
            collection.data() is None,
    {
        let collection = Collection { entries: Vec::new(), data: None };
        assert(collection.recipes() =~= Map::empty());
        collection
    }

    /// A collection that was loaded, before its recipes are added.
    pub fn with_data(data: Arc<H::CollectionData>) -> (collection: Self)
        ensures
            collection.recipes() == Map::<Seq<char>, Arc<H::Recipe>>::empty(),
            collection.data() == Some(data),
    {
        let collection = Collection { entries: Vec::new(), data: Some(data) };
        assert(collection.recipes() =~= Map::empty());
        collection
    }

    /// The rest of the collection; `None` where no file was loaded.
    pub fn loaded_data(&self) -> (data: Option<Arc<H::CollectionData>>)
        ensures
            data == self.data(),
    {
        match &self.data {
            Some(data) => Some(share(data)),
            None => None,
        }
    }

    /// The position of the recipe with the given ID.
    fn position(&self, recipe_id: &RecipeId) -> (position: Option<usize>)
        ensures
            position matches Some(i) ==> self.entry_at(i as int, recipe_id@),
            position is None ==> forall|i: int| !#[trigger] self.entry_at(i, recipe_id@),
    {
        for i in 0..self.entries.len()
            invariant
                forall|j: int| 0 <= j < i ==> !#[trigger] self.entry_at(j, recipe_id@),
        {
            if self.entries[i].id.0 == recipe_id.0 {
                return Some(i);
            }
        }
        None
    }

    /// The recipe at a position is the one that its ID leads to.
    proof fn lemma_entry(self, i: int, id: Seq<char>)
        requires
            self.distinct_ids(),
            self.entry_at(i, id),
        ensures
            self.recipes().contains_key(id),
            self.recipes()[id] == self.entries@[i].recipe,
    {
        let j = choose|j: int| #[trigger] self.entry_at(j, id);
        assert(self.entry_at(j, id));
        assert(i == j);
    }

    /// Adds a recipe, in place of the one that had its ID before.
    pub fn add_recipe(&mut self, recipe_id: RecipeId, recipe: Arc<H::Recipe>)
        ensures
            final(self).recipes() == old(self).recipes().insert(recipe_id@, recipe),
            final(self).data() == old(self).data(),
    {
        proof {
            use_type_invariant(&*self);
        }
        let ghost id = recipe_id@;
        let position = self.position(&recipe_id);
        let mut entries = Vec::new();
        std::mem::swap(&mut entries, &mut self.entries);
        match position {
            Some(i) => {
                entries.set(i, RecipeEntry { id: recipe_id, recipe });
            },
            None => {
                entries.push(RecipeEntry { id: recipe_id, recipe });
            },
        }
        let ghost before = *old(self);
        assert(position is None ==> forall|i: int|
            0 <= i < before.entries@.len() ==> before.entry_at(i, before.entries@[i].id@)
                && before.entries@[i].id@ != id);
        self.entries = entries;
        proof {
            let place = if position is Some {
                position->0 as int
            } else {
                entries@.len() - 1
            };
            assert(self.entry_at(place, id));
            let after = *self;
            assert_maps_equal!(after.recipes(), before.recipes().insert(id, recipe), key => {
                if key == id {
                    after.lemma_entry(place, id);
                } else {
                    assert forall|i: int| #[trigger]
                        after.entry_at(i, key) == before.entry_at(i, key) by {}
                    if before.recipes().contains_key(key) {
                        let i = choose|i: int| #[trigger] before.entry_at(i, key);
                        assert(after.entry_at(i, key));
                        before.lemma_entry(i, key);
                        after.lemma_entry(i, key);
                    }
                }
            });
        }
    }

    /// The recipe with the given ID, where there is one.
    pub fn get_recipe(&self, recipe_id: &RecipeId) -> (recipe: Option<Arc<H::Recipe>>)
        ensures
            recipe == (if self.recipes().contains_key(recipe_id@) {
                Some(self.recipes()[recipe_id@])
            } else {
                None
            }),
    {
        proof {
            use_type_invariant(self);
        }
        match self.position(recipe_id) {
            Some(i) => {
                proof {
                    self.lemma_entry(i as int, recipe_id@);
                }
                Some(share(&self.entries[i].recipe))
            },
            None => None,
        }
    }
}

/// A collection and the file that it comes from.
pub struct CollectionFile<H: Host> {
    pub path: Arc<H::Path>,
    pub collection: Arc<Collection<H>>,
}

impl<H: Host> CollectionFile<H> {
    /// The file at a path, as long as no collection was loaded from it.
    pub fn with_path(path: Arc<H::Path>) -> (file: Self)
        ensures
            file.path == path,
            file.collection.recipes() == Map::<Seq<char>, Arc<H::Recipe>>::empty(),
            file.collection.data() is None,
    {
        CollectionFile { path, collection: Arc::new(Collection::empty()) }
    }

    /// Another handle to the same file.
    pub fn share(&self) -> (file: Self)
        ensures
            file == *self,
    {
        CollectionFile { path: share(&self.path), collection: share(&self.collection) }
    }
}

} // verus!
