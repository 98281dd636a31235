//! The class table of the managed side: loaded classes by name and their
//! single-inheritance hierarchy.
use vstd::prelude::*;
use crate::errors::Error;
use crate::objects::{ClassInfo, ClassView};

verus! {

/// The classes loaded on the managed side, in load order. A class can only
/// name a superclass that was loaded before it, so the hierarchy is a forest.
pub struct ClassTable {
    pub classes: Vec<ClassInfo>,
}

impl View for ClassTable {
    type V = Seq<ClassView>;

    open spec fn view(&self) -> Seq<ClassView> {
        Seq::new(self.classes@.len(), |i: int| self.classes@[i]@)
    }
}

/// Whether `index` is the first entry of `classes` that carries `name`.
pub open spec fn first_named(classes: Seq<ClassView>, name: Seq<char>, index: int) -> bool {
    &&& 0 <= index < classes.len()
    &&& classes[index].name == name
    &&& forall|j: int| 0 <= j < index ==> (#[trigger] classes[j]).name != name
}

/// Index of the class called `name`: the first entry with that name.
#[verifier::opaque]
pub open spec fn class_named(classes: Seq<ClassView>, name: Seq<char>) -> Option<int> {
    if exists|i: int| first_named(classes, name, i) {
        Some(choose|i: int| first_named(classes, name, i))
    } else {
        None
    }
}

/// Whether class `sub` is class `sup` or one of its descendants. Parent
/// links that do not point to an earlier entry are ignored.
pub open spec fn derives(classes: Seq<ClassView>, sub: int, sup: int) -> bool
    decreases sub,
{
    if sub < 0 || sub >= classes.len() {
        false
    } else if sub == sup {
        true
    } else {
        match classes[sub].parent {
            Some(p) => 0 <= p < sub && derives(classes, p, sup),
            None => false,
        }
    }
}

/// Whether `after` is `before` with further classes loaded behind it.
pub open spec fn extends(before: Seq<ClassView>, after: Seq<ClassView>) -> bool {
    &&& before.len() <= after.len()
    &&& forall|i: int| 0 <= i < before.len() ==> #[trigger] after[i] == before[i]
}

/// The class table after the class `name` was loaded under the superclass
/// called `parent`, if one is given. A name that is loaded already keeps its
/// definition, and a class whose superclass is not loaded is not loaded
/// either: both leave the table as it is.
pub open spec fn loaded(classes: Seq<ClassView>, name: Seq<char>, parent: Option<Seq<char>>) -> Seq<
    ClassView,
> {
    if class_named(classes, name) is Some {
        classes
    } else {
        match parent {
            None => classes.push(ClassView { name, parent: None }),
            Some(p) => match class_named(classes, p) {
                Some(q) => classes.push(ClassView { name, parent: Some(q) }),
                None => classes,
            },
        }
    }
}

/// Whether a class `name` can be loaded under the superclass called
/// `parent`: it is loaded already, or its superclass is.
pub open spec fn loadable(classes: Seq<ClassView>, name: Seq<char>, parent: Option<Seq<char>>)
    -> bool {
    class_named(classes, name) is Some || match parent {
        None => true,
        Some(p) => class_named(classes, p) is Some,
    }
}

/// The index that a name resolves to names an entry with that name, and no
/// entry before it has the name.
pub proof fn lemma_class_named(classes: Seq<ClassView>, name: Seq<char>)
    ensures
        class_named(classes, name) matches Some(i) ==> first_named(classes, name, i),
        class_named(classes, name) is None ==> forall|i: int|
            0 <= i < classes.len() ==> (#[trigger] classes[i]).name != name,
{
    reveal(class_named);
    if class_named(classes, name) is None {
        assert forall|i: int| 0 <= i < classes.len() implies (#[trigger] classes[i]).name
            != name by {
            if classes[i].name == name {
                lemma_named_exists(classes, name, i);
            }
        }
    }
}

/// The first entry with a name is what the name resolves to.
pub proof fn lemma_first_named_resolves(classes: Seq<ClassView>, name: Seq<char>, index: int)
    requires
        first_named(classes, name, index),
    ensures
        class_named(classes, name) == Some(index),
{
    reveal(class_named);
    let c = choose|i: int| first_named(classes, name, i);
    lemma_first_named_unique(classes, name, index, c);
}

/// Two indices that are both the first with a name are the same index.
pub proof fn lemma_first_named_unique(classes: Seq<ClassView>, name: Seq<char>, i: int, j: int)
    requires
        first_named(classes, name, i),
        first_named(classes, name, j),
    ensures
        i == j,
{
}

/// An entry with the name exists, so the name resolves.
pub proof fn lemma_named_exists(classes: Seq<ClassView>, name: Seq<char>, at: int)
    requires
        0 <= at < classes.len(),
        classes[at].name == name,
    ensures
        class_named(classes, name) is Some,
    decreases at,
{
    reveal(class_named);
    if forall|j: int| 0 <= j < at ==> (#[trigger] classes[j]).name != name {
        assert(first_named(classes, name, at));
    } else {
        let j = choose|j: int| 0 <= j < at && (#[trigger] classes[j]).name == name;
        lemma_named_exists(classes, name, j);
    }
}

/// Loading further classes changes neither what a loaded name resolves to
/// nor how the classes loaded before relate.
pub proof fn lemma_extends_keeps(before: Seq<ClassView>, after: Seq<ClassView>)
    requires
        extends(before, after),
    ensures
        forall|name: Seq<char>| #[trigger]
            class_named(before, name) is Some ==> class_named(after, name) == class_named(
                before,
                name,
            ),
        forall|sub: int, sup: int|
            0 <= sub < before.len() ==> #[trigger] derives(after, sub, sup) == derives(
                before,
                sub,
                sup,
            ),
{
    assert forall|name: Seq<char>| #[trigger] class_named(before, name) is Some implies class_named(
        after,
        name,
    ) == class_named(before, name) by {
        lemma_class_named(before, name);
        let k = class_named(before, name)->Some_0;
        assert forall|j: int| 0 <= j < k implies (#[trigger] after[j]).name != name by {
        }
        lemma_first_named_resolves(after, name, k);
    }
    assert forall|sub: int, sup: int| 0 <= sub < before.len() implies #[trigger] derives(
        after,
        sub,
        sup,
    ) == derives(before, sub, sup) by {
        lemma_extends_derives(before, after, sub, sup);
    }
}

/// Loading further classes does not change the ancestry of a loaded class.
pub proof fn lemma_extends_derives(
    before: Seq<ClassView>,
    after: Seq<ClassView>,
    sub: int,
    sup: int,
)
    requires
        extends(before, after),
        0 <= sub < before.len(),
    ensures
        derives(after, sub, sup) == derives(before, sub, sup),
    decreases sub,
{
    if sub != sup {
        match before[sub].parent {
            Some(p) => {
                if 0 <= p < sub {
                    lemma_extends_derives(before, after, p, sup);
                }
            },
            None => {},
        }
    }
}

/// Loading a class extends the table, and the class is loaded afterwards if
/// it could be loaded.
pub proof fn lemma_loaded(classes: Seq<ClassView>, name: Seq<char>, parent: Option<Seq<char>>)
    ensures
        extends(classes, loaded(classes, name, parent)),
        loadable(classes, name, parent) ==> class_named(loaded(classes, name, parent), name)
            is Some,
        forall|other: Seq<char>| #[trigger]
            class_named(classes, other) is Some ==> class_named(
                loaded(classes, name, parent),
                other,
            ) == class_named(classes, other),
{
    let after = loaded(classes, name, parent);
    lemma_extends_keeps(classes, after);
    if class_named(classes, name) is None && after.len() > classes.len() {
        lemma_class_named(classes, name);
        assert forall|j: int| 0 <= j < classes.len() implies (#[trigger] after[j]).name
            != name by {
        }
        lemma_first_named_resolves(after, name, classes.len() as int);
    }
}

/// A class that is newly loaded under a loaded superclass derives from it,
/// and from everything that the superclass derives from.
pub proof fn law_new_class_derives(
    classes: Seq<ClassView>,
    name: Seq<char>,
    parent: Seq<char>,
    ancestor: int,
)
    requires
        class_named(classes, name) is None,
        class_named(classes, parent) matches Some(q) && derives(classes, q, ancestor),
    ensures
        class_named(loaded(classes, name, Some(parent)), name) == Some(classes.len() as int),
        derives(loaded(classes, name, Some(parent)), classes.len() as int, ancestor),
{
    let after = loaded(classes, name, Some(parent));
    let q = class_named(classes, parent)->Some_0;
    lemma_class_named(classes, parent);
    lemma_class_named(classes, name);
    assert forall|j: int| 0 <= j < classes.len() implies (#[trigger] after[j]).name != name by {
    }
    lemma_first_named_resolves(after, name, classes.len() as int);
    lemma_extends_derives(classes, after, q, ancestor);
    lemma_derives_not_later(classes, q, ancestor);
}

/// Subclassing is transitive.
pub proof fn law_derives_transitive(classes: Seq<ClassView>, a: int, b: int, c: int)
    requires
        derives(classes, a, b),
        derives(classes, b, c),
    ensures
        derives(classes, a, c),
    decreases a,
{
    if a != b {
        match classes[a].parent {
            Some(p) => {
                law_derives_transitive(classes, p, b, c);
            },
            None => {},
        }
    }
}

/// A class never derives from one loaded after it.
pub proof fn lemma_derives_not_later(classes: Seq<ClassView>, sub: int, sup: int)
    requires
        derives(classes, sub, sup),
    ensures
        0 <= sup <= sub < classes.len(),
    decreases sub,
{
    if sub != sup {
        match classes[sub].parent {
            Some(p) => {
                lemma_derives_not_later(classes, p, sup);
            },
            None => {},
        }
    }
}

impl ClassTable {
    /// An empty class table.
    pub fn new() -> (r: ClassTable)
        ensures
            r@ == Seq::<ClassView>::empty(),
    {
        ClassTable { classes: Vec::new() }
    }

    /// Number of loaded classes.
    pub fn len(&self) -> (r: usize)
        ensures
            r == self@.len(),
    {
        self.classes.len()
    }

    /// Looks a class up by name.
    pub fn find(&self, name: &str) -> (r: Option<usize>)
        ensures
            match r {
                Some(i) => class_named(self@, name@) == Some(i as int),
                None => class_named(self@, name@) is None,
            },
    {
        let wanted = name.to_owned();
        let mut i: usize = 0;
        while i < self.classes.len()
            invariant
                i <= self@.len(),
                self@.len() == self.classes@.len(),
                wanted@ == name@,
                forall|j: int| 0 <= j < i ==> (#[trigger] self@[j]).name != name@,
            decreases self@.len() - i,
        {
            if self.classes[i].name == wanted {
                proof {
                    lemma_first_named_resolves(self@, name@, i as int);
                }
                return Some(i);
            }
            i += 1;
        }
        proof {
            reveal(class_named);
            assert forall|k: int| !first_named(self@, name@, k) by {}
        }
        None
    }

    /// Loads a class under `name` with the given superclass and returns its
    /// index. A name that is loaded already keeps its definition. Fails with
    /// `ClassNotFound`, loading nothing, when the class is new and its
    /// superclass is not loaded.
    pub fn define(&mut self, name: &str, parent: Option<&str>) -> (r: Result<usize, Error>)
        ensures
            final(self)@ == loaded(
                old(self)@,
                name@,
                match parent {
                    Some(p) => Some(p@),
                    None => None,
                },
            ),
            match r {
                Ok(i) => {
                    &&& loadable(
                        old(self)@,
                        name@,
                        match parent {
                            Some(p) => Some(p@),
                            None => None,
                        },
                    )
                    &&& class_named(final(self)@, name@) == Some(i as int)
                },
                Err(e) => {
                    &&& e == Error::ClassNotFound
                    &&& !loadable(
                        old(self)@,
                        name@,
                        match parent {
                            Some(p) => Some(p@),
                            None => None,
                        },
                    )
                },
            },
    {
        let ghost parent_name: Option<Seq<char>> = match parent {
            Some(p) => Some(p@),
            None => None,
        };
        match self.find(name) {
            Some(i) => Ok(i),
            None => {
                let parent_index = match parent {
                    Some(p) => match self.find(p) {
                        Some(q) => Some(q),
                        None => {
                            return Err(Error::ClassNotFound);
                        },
                    },
                    None => None,
                };
                let i = self.classes.len();
                self.classes.push(ClassInfo { name: name.to_owned(), parent: parent_index });
                proof {
                    assert(self@ =~= loaded(old(self)@, name@, parent_name));
                    lemma_loaded(old(self)@, name@, parent_name);
                    lemma_class_named(self@, name@);
                    lemma_class_named(old(self)@, name@);
                }
                Ok(i)
            },
        }
    }

    /// Whether class `sub` is `sup` or a descendant of it.
    pub fn is_subclass(&self, sub: usize, sup: usize) -> (r: bool)
        ensures
            r == derives(self@, sub as int, sup as int),
    {
        let mut cur = sub;
        loop
            invariant
                self@.len() == self.classes@.len(),
                derives(self@, cur as int, sup as int) == derives(self@, sub as int, sup as int),
            decreases cur,
        {
            if cur >= self.classes.len() {
                return false;
            }
            if cur == sup {
                return true;
            }
            match self.classes[cur].parent {
                Some(p) => {
                    if p < cur {
                        cur = p;
                    } else {
                        return false;
                    }
                },
                None => {
                    return false;
                },
            }
        }
    }
}

} // verus!
