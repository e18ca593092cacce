//! Setting values: what a property of the control plane can hold.

use vstd::prelude::*;

verus! {

/// One element of a list value.
#[derive(Debug, PartialEq, Eq)]
pub enum Item {
    /// A whole number that is not negative.
    Unsigned(u64),
    /// Anything else, as it was written.
    Other(String),
}

/// A setting value.
#[derive(Debug, PartialEq, Eq)]
pub enum Value {
    Null,
    Bool(bool),
    /// A whole number that is not negative.
    Unsigned(u64),
    /// A negative whole number.
    Signed(i64),
    /// A number with a fraction or an exponent, as it was written.
    Decimal(String),
    Text(String),
    List(Vec<Item>),
    /// A keyed collection, as it was written.
    Object(String),
}

/// What an `Item` holds.
pub enum ItemModel {
    Unsigned(u64),
    Other(Seq<char>),
}

/// What a `Value` holds.
pub enum ValueModel {
    Null,
    Bool(bool),
    Unsigned(u64),
    Signed(i64),
    Decimal(Seq<char>),
    Text(Seq<char>),
    List(Seq<ItemModel>),
    Object(Seq<char>),
}

/// The kinds of value that a property can be set to.
#[derive(Clone, Copy, Debug, PartialEq, Eq, Structural)]
pub enum Kind {
    Null,
    Bool,
    Number,
    Text,
    List,
    Object,
}

impl View for Item {
    type V = ItemModel;

    open spec fn view(&self) -> ItemModel {
        match self {
            Item::Unsigned(n) => ItemModel::Unsigned(*n),
            Item::Other(s) => ItemModel::Other(s@),
        }
    }
}

impl View for Value {
    type V = ValueModel;

    open spec fn view(&self) -> ValueModel {
        match self {
            Value::Null => ValueModel::Null,
            Value::Bool(b) => ValueModel::Bool(*b),
            Value::Unsigned(n) => ValueModel::Unsigned(*n),
            Value::Signed(n) => ValueModel::Signed(*n),
            Value::Decimal(s) => ValueModel::Decimal(s@),
            Value::Text(s) => ValueModel::Text(s@),
            Value::List(items) => ValueModel::List(Seq::new(items@.len(), |i: int| items@[i]@)),
            Value::Object(s) => ValueModel::Object(s@),
        }
    }
}

impl ValueModel {
    pub open spec fn kind(self) -> Kind {
        match self {
            ValueModel::Null => Kind::Null,
            ValueModel::Bool(_) => Kind::Bool,
            ValueModel::Unsigned(_) | ValueModel::Signed(_) | ValueModel::Decimal(_) => Kind::Number,
            ValueModel::Text(_) => Kind::Text,
            ValueModel::List(_) => Kind::List,
            ValueModel::Object(_) => Kind::Object,
        }
    }

    /// The value as a whole number that is not negative, if it is one.
    pub open spec fn as_unsigned(self) -> Option<u64> {
        match self {
            ValueModel::Unsigned(n) => Some(n),
            _ => None,
        }
    }

    pub open spec fn as_flag(self) -> Option<bool> {
        match self {
            ValueModel::Bool(b) => Some(b),
            _ => None,
        }
    }

    pub open spec fn as_text(self) -> Option<Seq<char>> {
        match self {
            ValueModel::Text(s) => Some(s),
            _ => None,
        }
    }

    /// The whole numbers of a list, in order, leaving out every other element.
    pub open spec fn numbers(self) -> Seq<u64> {
        match self {
            ValueModel::List(items) => unsigned_items(items),
            _ => Seq::empty(),
        }
    }
}

/// The whole numbers among `items`, in order.
pub open spec fn unsigned_items(items: Seq<ItemModel>) -> Seq<u64>
    decreases items.len(),
{
    if items.len() == 0 {
        Seq::empty()
    } else {
        match items.last() {
            ItemModel::Unsigned(n) => unsigned_items(items.drop_last()).push(n),
            ItemModel::Other(_) => unsigned_items(items.drop_last()),
        }
    }
}

/// The list value that holds `numbers`, in order.
pub open spec fn list_of(numbers: Seq<u64>) -> ValueModel {
    ValueModel::List(Seq::new(numbers.len(), |i: int| ItemModel::Unsigned(numbers[i])))
}

impl Item {
    pub fn duplicate(&self) -> (out: Item)
        ensures
            out@ == self@,
    {
        match self {
            Item::Unsigned(n) => Item::Unsigned(*n),
            Item::Other(s) => Item::Other(s.clone()),
        }
    }
}

impl Value {
    pub fn kind(&self) -> (out: Kind)
        ensures
            out == self@.kind(),
    {
        match self {
            Value::Null => Kind::Null,
            Value::Bool(_) => Kind::Bool,
            Value::Unsigned(_) | Value::Signed(_) | Value::Decimal(_) => Kind::Number,
            Value::Text(_) => Kind::Text,
            Value::List(_) => Kind::List,
            Value::Object(_) => Kind::Object,
        }
    }

    pub fn as_u64(&self) -> (out: Option<u64>)
        ensures
            out == self@.as_unsigned(),
    {
        match self {
            Value::Unsigned(n) => Some(*n),
            _ => None,
        }
    }

    pub fn as_bool(&self) -> (out: Option<bool>)
        ensures
            out == self@.as_flag(),
    {
        match self {
            Value::Bool(b) => Some(*b),
            _ => None,
        }
    }

    pub fn as_str(&self) -> (out: Option<&String>)
        ensures
            out is Some <==> self@.as_text() is Some,
            out matches Some(s) ==> Some(s@) == self@.as_text(),
    {
        match self {
            Value::Text(s) => Some(s),
            _ => None,
        }
    }

    pub fn is_array(&self) -> (out: bool)
        ensures
            out == (self@.kind() == Kind::List),
    {
        match self {
            Value::List(_) => true,
            _ => false,
        }
    }

    /// The whole numbers of a list, in order; empty for a value that is no list.
    pub fn numbers(&self) -> (out: Vec<u64>)
        ensures
            out@ == self@.numbers(),
    {
        let mut out: Vec<u64> = Vec::new();
        match self {
            Value::List(items) => {
                let ghost models = Seq::new(items@.len(), |i: int| items@[i]@);
                let mut i: usize = 0;
                while i < items.len()
                    invariant
                        i <= items.len(),
                        models == Seq::new(items@.len(), |i: int| items@[i]@),
                        out@ == unsigned_items(models.take(i as int)),
                    decreases items.len() - i,
                {
                    proof {
                        assert(models.take(i + 1).drop_last() =~= models.take(i as int));
                    }
                    match &items[i] {
                        Item::Unsigned(n) => out.push(*n),
                        Item::Other(_) => {},
                    }
                    i += 1;
                }
                proof {
                    assert(models.take(items.len() as int) =~= models);
                }
            },
            _ => {},
        }
        out
    }

    /// The list value that holds `numbers`.
    pub fn from_numbers(numbers: &Vec<u64>) -> (out: Value)
        ensures
            out@ == list_of(numbers@),
    {
        let mut items: Vec<Item> = Vec::new();
        let mut i: usize = 0;
        while i < numbers.len()
            invariant
                i <= numbers.len(),
                items@.len() == i,
                forall|k: int| 0 <= k < i ==> (#[trigger] items@[k])@ == ItemModel::Unsigned(numbers@[k]),
            decreases numbers.len() - i,
        {
            items.push(Item::Unsigned(numbers[i]));
            i += 1;
        }
        let out = Value::List(items);
        proof {
            assert(out@->List_0 =~= list_of(numbers@)->List_0);
        }
        out
    }

    pub fn duplicate(&self) -> (out: Value)
        ensures
            out@ == self@,
    {
        match self {
            Value::Null => Value::Null,
            Value::Bool(b) => Value::Bool(*b),
            Value::Unsigned(n) => Value::Unsigned(*n),
            Value::Signed(n) => Value::Signed(*n),
            Value::Decimal(s) => Value::Decimal(s.clone()),
            Value::Text(s) => Value::Text(s.clone()),
            Value::Object(s) => Value::Object(s.clone()),
            Value::List(items) => {
                let mut copy: Vec<Item> = Vec::new();
                let mut i: usize = 0;
                while i < items.len()
                    invariant
                        i <= items.len(),
                        copy@.len() == i,
                        forall|k: int| 0 <= k < i ==> (#[trigger] copy@[k])@ == items@[k]@,
                    decreases items.len() - i,
                {
                    copy.push(items[i].duplicate());
                    i += 1;
                }
                let out = Value::List(copy);
                proof {
                    assert(out@->List_0 =~= self@->List_0);
                }
                out
            },
        }
    }
}

/// The numbers of the list that holds `numbers` are `numbers`.
pub proof fn lemma_numbers_of_list(numbers: Seq<u64>)
    ensures
        list_of(numbers).numbers() == numbers,
    decreases numbers.len(),
{
    let items = list_of(numbers)->List_0;
    if numbers.len() == 0 {
        assert(unsigned_items(items) =~= numbers);
    } else {
        lemma_numbers_of_list(numbers.drop_last());
        assert(items.drop_last() =~= list_of(numbers.drop_last())->List_0);
        assert(unsigned_items(items) =~= numbers);
    }
}

} // verus!
