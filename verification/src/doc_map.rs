//! The documentation map: for each category, the entries filed under it, in
//! the order in which they were filed.

use vstd::prelude::*;

verus! {

/// The documentation map as a mathematical map from a category's name to the
/// entries filed under it, oldest first. An entry is a sequence of texts.
pub type Docs = Map<Seq<char>, Seq<Seq<Seq<char>>>>;

/// `docs` after `entry` was filed under `category`: the entry comes last
/// among those of its category, and opens the category where it is new.
pub open spec fn filed(docs: Docs, category: Seq<char>, entry: Seq<Seq<char>>) -> Docs {
    let before = if docs.contains_key(category) {
        docs[category]
    } else {
        Seq::empty()
    };
    docs.insert(category, before.push(entry))
}

/// A category with its entries.
#[derive(Debug, Clone)]
pub struct DocCategory {
    pub name: String,
    pub entries: Vec<Vec<String>>,
}

/// The categories in the order in which they were opened. A lookup takes the
/// first category of the name asked for.
#[derive(Debug, Clone)]
pub struct DocMap {
    pub categories: Vec<DocCategory>,
}

impl DocMap {
    /// The names of the categories, in order.
    pub open spec fn names(&self) -> Seq<Seq<char>> {
        Seq::new(self.categories@.len(), |i: int| self.categories@[i].name@)
    }

    /// `at` is the place of the first category named `name`.
    pub open spec fn first_named(&self, name: Seq<char>, at: int) -> bool {
        &&& 0 <= at < self.names().len()
        &&& self.names()[at] == name
        &&& forall|earlier: int| 0 <= earlier < at ==> self.names()[earlier] != name
    }

    /// The place of the first category named `name`.
    pub open spec fn place(&self, name: Seq<char>) -> int {
        choose|at: int| self.first_named(name, at)
    }

    /// No name is held by two categories.
    pub open spec fn wf(&self) -> bool {
        self.names().no_duplicates()
    }

    /// A first place is unique, so it is the one `place` names.
    pub proof fn lemma_place_is(&self, name: Seq<char>, at: int)
        requires
            self.first_named(name, at),
        ensures
            self.place(name) == at,
            self.names().contains(name),
    {
        let chosen = self.place(name);
        assert(self.first_named(name, chosen));
        if chosen < at {
            assert(self.names()[chosen] != name);
        }
        if at < chosen {
            assert(self.names()[at] != name);
        }
    }

    /// A name that some category holds has a first place.
    pub proof fn lemma_contained_has_place(&self, name: Seq<char>)
        requires
            self.names().contains(name),
        ensures
            self.first_named(name, self.place(name)),
    {
        let at = choose|at: int| 0 <= at < self.names().len() && self.names()[at] == name;
        self.lemma_named_has_place(name, at);
    }

    proof fn lemma_named_has_place(&self, name: Seq<char>, at: int)
        requires
            0 <= at < self.names().len(),
            self.names()[at] == name,
        ensures
            self.first_named(name, self.place(name)),
        decreases at,
    {
        if exists|earlier: int| 0 <= earlier < at && self.names()[earlier] == name {
            let earlier = choose|earlier: int| 0 <= earlier < at && self.names()[earlier] == name;
            self.lemma_named_has_place(name, earlier);
        } else {
            assert(self.first_named(name, at));
        }
    }

    /// An empty map.
    pub fn new() -> (docs: DocMap)
        ensures
            docs@ == Docs::empty(),
            docs.wf(),
    {
        let docs = DocMap { categories: Vec::new() };
        assert(docs@ =~= Docs::empty());
        docs
    }

    /// The place of the first category named `name`, if there is one.
    pub fn find_category(&self, name: &str) -> (found: Option<usize>)
        ensures
            found matches Some(at) ==> self.first_named(name@, at as int),
            found is None ==> !self.names().contains(name@),
            found is Some <==> self@.contains_key(name@),
    {
        let wanted = name.to_owned();
        let mut at: usize = 0;
        while at < self.categories.len()
            invariant
                at <= self.categories@.len(),
                wanted@ == name@,
                forall|earlier: int| 0 <= earlier < at ==> self.names()[earlier] != name@,
            decreases self.categories@.len() - at,
        {
            if self.categories[at].name == wanted {
                proof {
                    self.lemma_place_is(name@, at as int);
                }
                return Some(at);
            }
            at += 1;
        }
        None
    }

    /// The entries filed under `category`, oldest first, if any were.
    pub fn get(&self, category: &str) -> (entries: Option<&Vec<Vec<String>>>)
        ensures
            match entries {
                Some(found) => self@.contains_key(category@) && found.deep_view()
                    == self@[category@],
                None => !self@.contains_key(category@),
            },
    {
        match self.find_category(category) {
            Some(at) => {
                proof {
                    self.lemma_place_is(category@, at as int);
                }
                Some(&self.categories[at].entries)
            },
            None => None,
        }
    }

    /// Files `entry` under `category`, after the entries that the category
    /// already holds.
    pub fn add(&mut self, category: &str, entry: Vec<String>)
        ensures
            final(self)@ == filed(old(self)@, category@, entry.deep_view()),
            old(self).wf() ==> final(self).wf(),
    {
        let ghost before = *self;
        let ghost after = filed(before@, category@, entry.deep_view());
        match self.find_category(category) {
            Some(at) => {
                self.categories[at].entries.push(entry);
                proof {
                    assert(self.names() =~= before.names());
                    before.lemma_place_is(category@, at as int);
                    assert(self.categories@[at as int].entries.deep_view()
                        =~= before.categories@[at as int].entries.deep_view().push(
                        entry.deep_view(),
                    ));
                    assert forall|name: Seq<char>| self@.contains_key(name) implies #[trigger] self@[name]
                        == after[name] by {
                        before.lemma_contained_has_place(name);
                        self.lemma_place_is(name, before.place(name));
                    }
                    assert(self@ =~= after);
                }
            },
            None => {
                let mut entries: Vec<Vec<String>> = Vec::new();
                entries.push(entry);
                self.categories.push(DocCategory { name: category.to_owned(), entries });
                proof {
                    let end = before.names().len() as int;
                    assert(self.names() =~= before.names().push(category@));
                    assert(self.names()[end] == category@);
                    assert(self.categories@[end].entries.deep_view() =~= Seq::<
                        Seq<Seq<char>>,
                    >::empty().push(entry.deep_view()));
                    assert forall|name: Seq<char>| self@.contains_key(name) implies after.contains_key(
                        name,
                    ) && #[trigger] self@[name] == after[name] by {
                        if name == category@ {
                            assert(self.first_named(name, end));
                            self.lemma_place_is(name, end);
                        } else {
                            let at = choose|at: int|
                                0 <= at < self.names().len() && self.names()[at] == name;
                            assert(before.names()[at] == name);
                            before.lemma_contained_has_place(name);
                            assert(self.first_named(name, before.place(name)));
                            self.lemma_place_is(name, before.place(name));
                        }
                    }
                    assert forall|name: Seq<char>| after.contains_key(name) implies self@.contains_key(
                        name,
                    ) by {
                        if name != category@ {
                            let at = choose|at: int|
                                0 <= at < before.names().len() && before.names()[at] == name;
                            assert(self.names()[at] == name);
                        }
                    }
                    assert(self@ =~= after);
                }
            },
        }
    }
}

impl View for DocMap {
    type V = Docs;

    open spec fn view(&self) -> Docs {
        Map::new(
            |name: Seq<char>| self.names().contains(name),
            |name: Seq<char>| self.categories@[self.place(name)].entries.deep_view(),
        )
    }
}

} // verus!
