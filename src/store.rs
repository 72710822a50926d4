use vstd::prelude::*;

verus! {

/// A typed attribute value as the store holds it: the handler only ever reads
/// numbers and strings, so every other kind of value is kept as `Other`.
pub enum AttrValue {
    Num(String),
    Str(String),
    Other,
}

/// The mathematical value of an attribute.
pub enum AttrModel {
    Num(Seq<char>),
    Str(Seq<char>),
    Other,
}

impl View for AttrValue {
    type V = AttrModel;

    open spec fn view(&self) -> AttrModel {
        match self {
            AttrValue::Num(s) => AttrModel::Num(s@),
            AttrValue::Str(s) => AttrModel::Str(s@),
            AttrValue::Other => AttrModel::Other,
        }
    }
}

/// The model of a stored item: its attributes, by name, in order.
pub type ItemModel = Seq<(Seq<char>, AttrModel)>;

/// One stored item: a list of named attributes.
pub struct Item {
    pub attrs: Vec<(String, AttrValue)>,
}

impl View for Item {
    type V = ItemModel;

    open spec fn view(&self) -> ItemModel {
        self.attrs@.map_values(|e: (String, AttrValue)| (e.0@, e.1@))
    }
}

/// The value of the first attribute called `name`, if any.
pub open spec fn attr_in(item: ItemModel, name: Seq<char>) -> Option<AttrModel>
    decreases item.len(),
{
    if item.len() == 0 {
        None
    } else if item[0].0 == name {
        Some(item[0].1)
    } else {
        attr_in(item.drop_first(), name)
    }
}

/// The text of the attribute `name` when it holds a number.
pub open spec fn number_in(item: ItemModel, name: Seq<char>) -> Option<Seq<char>> {
    match attr_in(item, name) {
        Some(AttrModel::Num(s)) => Some(s),
        _ => None,
    }
}

/// The text of the attribute `name` when it holds a string.
pub open spec fn string_in(item: ItemModel, name: Seq<char>) -> Option<Seq<char>> {
    match attr_in(item, name) {
        Some(AttrModel::Str(s)) => Some(s),
        _ => None,
    }
}

proof fn lemma_attr_in_suffix(item: ItemModel, name: Seq<char>, i: int)
    requires
        0 <= i < item.len(),
        item[i].0 != name,
    ensures
        attr_in(item.subrange(i, item.len() as int), name) == attr_in(
            item.subrange(i + 1, item.len() as int),
            name,
        ),
{
    assert(item.subrange(i, item.len() as int).drop_first() =~= item.subrange(
        i + 1,
        item.len() as int,
    ));
}

impl Item {
    /// The position of the first attribute called `name`.
    fn position(&self, name: &String) -> (r: Option<usize>)
        ensures
            match r {
                Some(i) => i < self@.len() && self@[i as int].0 == name@ && attr_in(self@, name@)
                    == Some(self@[i as int].1),
                None => attr_in(self@, name@) is None,
            },
    {
        let n = self.attrs.len();
        let mut i: usize = 0;
        proof {
            assert(self@.subrange(0, self@.len() as int) =~= self@);
        }
        while i < n
            invariant
                n == self.attrs.len(),
                self@.len() == n,
                i <= n,
                attr_in(self@, name@) == attr_in(self@.subrange(i as int, n as int), name@),
            decreases n - i,
        {
            if self.attrs[i].0 == *name {
                proof {
                    assert(self@.subrange(i as int, n as int)[0] == self@[i as int]);
                }
                return Some(i);
            }
            proof {
                lemma_attr_in_suffix(self@, name@, i as int);
            }
            i = i + 1;
        }
        None
    }

    /// The text of the attribute `name` when it is stored as a number.
    pub fn number(&self, name: &String) -> (r: Option<String>)
        ensures
            match r {
                Some(s) => number_in(self@, name@) == Some(s@),
                None => number_in(self@, name@) is None,
            },
    {
        match self.position(name) {
            Some(i) => match &self.attrs[i].1 {
                AttrValue::Num(s) => Some(s.clone()),
                _ => None,
            },
            None => None,
        }
    }

    /// The text of the attribute `name` when it is stored as a string.
    pub fn string(&self, name: &String) -> (r: Option<String>)
        ensures
            match r {
                Some(s) => string_in(self@, name@) == Some(s@),
                None => string_in(self@, name@) is None,
            },
    {
        match self.position(name) {
            Some(i) => match &self.attrs[i].1 {
                AttrValue::Str(s) => Some(s.clone()),
                _ => None,
            },
            None => None,
        }
    }
}

} // verus!
