use vstd::prelude::*;

use crate::menu::Menu;

verus! {

/// A value placed into a host options bag.
#[derive(PartialEq, Eq, Debug)]
pub enum Value {
    Bool(bool),
    U32(u32),
    U16(u16),
    Text(String),
    Menu(Menu),
}

/// An ordered key/value bag describing a host configuration object.
///
/// The host reads such a bag only through its setter, so the model keeps the
/// exact sequence of `set` calls; when a key is set twice the host observes
/// the later value.
#[derive(PartialEq, Eq, Debug)]
pub struct Options {
    pub entries: Vec<(String, Value)>,
}

impl View for Options {
    type V = Seq<(Seq<char>, Value)>;

    /// The sequence of key/value pairs set so far, keys as character strings.
    open spec fn view(&self) -> Seq<(Seq<char>, Value)> {
        self.entries@.map(|i: int, e: (String, Value)| (e.0@, e.1))
    }
}

/// Whether `post` is `pre` with one text value appended: the entry `(key,
/// text)`, for setters that pass a borrowed string through.
pub open spec fn pushed_text(
    pre: Seq<(Seq<char>, Value)>,
    post: Seq<(Seq<char>, Value)>,
    key: Seq<char>,
    text: Seq<char>,
) -> bool {
    &&& post.len() == pre.len() + 1
    &&& (forall|i: int| 0 <= i < pre.len() ==> post[i] == pre[i])
    &&& post.last().0 == key
    &&& post.last().1 matches Value::Text(s) && s@ == text
}

impl Options {
    /// An empty bag.
    pub fn new() -> (r: Self)
        ensures
            r@ == Seq::<(Seq<char>, Value)>::empty(),
    {
        let r = Options { entries: Vec::new() };
        proof {
            assert(r@ =~= Seq::<(Seq<char>, Value)>::empty());
        }
        r
    }

    /// Records that `key` is set to `value`.
    pub fn set(self, key: &str, value: Value) -> (r: Self)
        ensures
            r@ == self@.push((key@, value)),
    {
        let mut entries = self.entries;
        entries.push((key.to_owned(), value));
        let r = Options { entries };
        proof {
            assert(r@ =~= self@.push((key@, value)));
        }
        r
    }
}

} // verus!
