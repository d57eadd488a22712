//! Lists with bullets.

use crate::text::{decimal, decimal_text, slice_views, text_of, views};
use std::fmt::Display;
use vstd::prelude::*;
use vstd::string::StringExecFns;

verus! {

/// What stands before each item of a list.
#[derive(Debug, Clone, PartialEq)]
pub enum Bullet<T: Display> {
    /// The numbers from this one on (1 gives "1", "2", "3").
    Numeric(usize),
    /// The numbers from this one on, each with a dot (1 gives "1.", "2.",
    /// "3.").
    NumericDot(usize),
    /// The numbers from this one on, each with a parenthesis (1 gives "1)",
    /// "2)", "3)").
    NumericParen(usize),
    /// The same symbol before each item.
    Symbol(T),
}

impl<T: Display> Bullet<T> {
    /// The number of the first item, for the bullets that count.
    pub open spec fn offset(&self) -> Option<usize> {
        match self {
            Self::Numeric(n) => Some(*n),
            Self::NumericDot(n) => Some(*n),
            Self::NumericParen(n) => Some(*n),
            Self::Symbol(_) => None,
        }
    }

    /// What follows the number in the bullets that count.
    pub open spec fn closing(&self) -> Seq<char> {
        match self {
            Self::NumericDot(_) => seq!['.'],
            Self::NumericParen(_) => seq![')'],
            _ => Seq::empty(),
        }
    }

    /// The symbol, for the bullet that has one.
    pub fn get_symbol(&self) -> (symbol: Option<&T>)
        ensures
            match self {
                Self::Symbol(s) => symbol == Some(s),
                _ => symbol is None,
            },
    {
        match self {
            Self::Symbol(s) => Some(s),
            _ => None,
        }
    }

    /// The number of the first item, for the bullets that count.
    pub fn get_num_offset(&self) -> (n: Option<usize>)
        ensures
            n == self.offset(),
    {
        match self {
            Self::NumericDot(n) => Some(*n),
            Self::NumericParen(n) => Some(*n),
            Self::Numeric(n) => Some(*n),
            _ => None,
        }
    }

    /// The bullet of the item at `index`: for the bullets that count, the
    /// number of the first item plus `index` in base ten, with what follows
    /// it; for a symbol, the symbol as it is displayed.
    pub fn label(&self, index: usize) -> (text: String)
        requires
            self.offset() matches Some(n) ==> n + index <= usize::MAX,
        ensures
            match self {
                Self::Symbol(s) => vstd::string::to_string_from_display_ensures::<T>(s, text),
                _ => text@ == decimal_text((self.offset()->0 + index) as nat) + self.closing(),
            },
    {
        proof {
            reveal_strlit(".");
            reveal_strlit(")");
        }
        match self {
            Self::Numeric(x) => {
                let text = decimal(*x + index);
                assert(text@ =~= decimal_text((x + index) as nat) + self.closing());
                text
            },
            Self::NumericDot(x) => {
                let mut text = decimal(*x + index);
                text.append(".");
                assert(text@ =~= decimal_text((x + index) as nat) + self.closing());
                text
            },
            Self::NumericParen(x) => {
                let mut text = decimal(*x + index);
                text.append(")");
                assert(text@ =~= decimal_text((x + index) as nat) + self.closing());
                text
            },
            Self::Symbol(s) => s.to_string(),
        }
    }
}

/// A list of texts, with an optional bullet before each.
#[derive(Debug, Clone)]
pub struct List<T: Display> {
    /// The items.
    list: Vec<String>,
    /// The bullet.
    bullet: Option<Bullet<T>>,
}

/// An item of a list, with its bullet.
#[derive(Debug, Clone)]
pub struct Item {
    /// The bullet.
    bullet: Option<String>,
    /// The item.
    item: String,
}

impl Item {
    /// The text of the item.
    pub closed spec fn item_text(&self) -> Seq<char> {
        self.item@
    }

    /// The bullet of the item.
    pub closed spec fn bullet_text(&self) -> Option<Seq<char>> {
        match self.bullet {
            Some(b) => Some(b@),
            None => None,
        }
    }

    /// The item, without its bullet.
    pub fn get_item(&self) -> (text: &str)
        ensures
            text@ == self.item_text(),
    {
        self.item.as_str()
    }

    /// The bullet, if there is one.
    pub fn get_bullet(&self) -> (text: Option<&str>)
        ensures
            text_of(text) == self.bullet_text(),
    {
        match &self.bullet {
            Some(b) => Some(b.as_str()),
            None => None,
        }
    }

    /// The item as it is shown: the bullet and a space where there is a
    /// bullet, then the item.
    pub fn to_string(&self) -> (text: String)
        ensures
            text@ == (match self.bullet_text() {
                Some(b) => b + seq![' '] + self.item_text(),
                None => self.item_text(),
            }),
    {
        proof {
            reveal_strlit(" ");
        }
        match &self.bullet {
            Some(b) => {
                let mut text = b.clone();
                text.append(" ");
                text.append(self.item.as_str());
                assert(text@ =~= b@ + seq![' '] + self.item@);
                text
            },
            None => self.item.clone(),
        }
    }
}

impl<T: Display> List<T> {
    /// The texts of the items.
    pub closed spec fn items(&self) -> Seq<Seq<char>> {
        views(self.list@)
    }

    /// The bullet.
    pub closed spec fn bullet(&self) -> Option<Bullet<T>> {
        self.bullet
    }

    /// A list without items and without a bullet.
    pub fn new() -> (list: Self)
        ensures
            list.items() == Seq::<Seq<char>>::empty(),
            list.bullet() is None,
    {
        let list = Self { list: Vec::new(), bullet: None };
        assert(list.items() =~= Seq::<Seq<char>>::empty());
        list
    }

    /// Whether the list has no item.
    pub fn is_empty(&self) -> (b: bool)
        ensures
            b == (self.items().len() == 0),
    {
        self.list.len() == 0
    }

    /// How many items the list has.
    pub fn len(&self) -> (n: usize)
        ensures
            n == self.items().len(),
    {
        self.list.len()
    }

    /// The bullet, if there is one.
    pub fn get_bullet(&self) -> (bullet: Option<&Bullet<T>>)
        ensures
            match bullet {
                Some(b) => self.bullet() == Some(*b),
                None => self.bullet() is None,
            },
    {
        self.bullet.as_ref()
    }

    /// Appends the items; those that are there stay.
    pub fn with_items(&mut self, items: &[&str]) -> (r: &mut Self)
        ensures
            r.items() == old(self).items() + slice_views(items@),
            r.bullet() == old(self).bullet(),
            *final(self) == *final(r),
    {
        let mut i: usize = 0;
        let ghost before = views(self.list@);
        while i < items.len()
            invariant
                i <= items.len(),
                self.bullet == old(self).bullet,
                views(self.list@) == before + slice_views(items@).take(i as int),
            decreases items.len() - i,
        {
            let ghost so_far = views(self.list@);
            self.list.push(items[i].to_owned());
            proof {
                assert(views(self.list@) =~= so_far.push(items@[i as int]@));
                assert(views(self.list@) =~= before + slice_views(items@).take(
                    i + 1,
                ));
            }
            i += 1;
        }
        proof {
            assert(slice_views(items@).take(i as int) =~= slice_views(
                items@,
            ));
        }
        self
    }

    /// Removes the items.
    pub fn without_items(&mut self) -> (r: &mut Self)
        ensures
            r.items() == Seq::<Seq<char>>::empty(),
            r.bullet() == old(self).bullet(),
            *final(self) == *final(r),
    {
        self.list.clear();
        assert(views(self.list@) =~= Seq::<Seq<char>>::empty());
        self
    }

    /// Sets the bullet.
    pub fn with_bullet(&mut self, bullet: Bullet<T>) -> (r: &mut Self)
        ensures
            r.items() == old(self).items(),
            r.bullet() == Some(bullet),
            *final(self) == *final(r),
    {
        self.bullet = Some(bullet);
        self
    }

    /// Removes the bullet.
    pub fn without_bullet(&mut self) -> (r: &mut Self)
        ensures
            r.items() == old(self).items(),
            r.bullet() is None,
            *final(self) == *final(r),
    {
        self.bullet = None;
        self
    }

    /// Whether the bullets of all the items can be numbered.
    pub open spec fn can_be_numbered(&self) -> bool {
        match self.bullet() {
            Some(b) => match b.offset() {
                Some(n) => n + self.items().len() <= usize::MAX,
                None => true,
            },
            None => true,
        }
    }

    /// The items in order, each with its bullet: the bullet of the list,
    /// numbered by the place of the item where the bullet counts.
    pub fn into_iter(self) -> (items: Vec<Item>)
        requires
            self.can_be_numbered(),
        ensures
            items.len() == self.items().len(),
            forall|i: int|
                0 <= i < items.len() ==> (#[trigger] items@[i]).item_text() == self.items()[i],
            forall|i: int|
                0 <= i < items.len() ==> match self.bullet() {
                    None => (#[trigger] items@[i]).bullet_text() is None,
                    Some(Bullet::Symbol(s)) => exists|shown: String|
                        vstd::string::to_string_from_display_ensures::<T>(&s, shown)
                            && items@[i].bullet_text() == Some(shown@),
                    Some(b) => items@[i].bullet_text() == Some(
                        decimal_text((b.offset()->0 + i) as nat) + b.closing(),
                    ),
                },
    {
        let mut items: Vec<Item> = Vec::new();
        let mut i: usize = 0;
        while i < self.list.len()
            invariant
                i <= self.list.len(),
                self.can_be_numbered(),
                items.len() == i,
                forall|k: int| 0 <= k < i ==> (#[trigger] items@[k]).item_text() == self.items()[k],
                forall|k: int|
                    0 <= k < i ==> match self.bullet() {
                        None => (#[trigger] items@[k]).bullet_text() is None,
                        Some(Bullet::Symbol(s)) => exists|shown: String|
                            vstd::string::to_string_from_display_ensures::<T>(&s, shown)
                                && items@[k].bullet_text() == Some(shown@),
                        Some(b) => items@[k].bullet_text() == Some(
                            decimal_text((b.offset()->0 + k) as nat) + b.closing(),
                        ),
                    },
            decreases self.list.len() - i,
        {
            let bullet = match &self.bullet {
                Some(b) => Some(b.label(i)),
                None => None,
            };
            items.push(Item { bullet, item: self.list[i].clone() });
            i += 1;
        }
        items
    }
}

} // verus!
