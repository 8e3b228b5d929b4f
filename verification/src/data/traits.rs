//! What the catalogs of items and recipes have in common.

use crate::data::enums::{DSPItem, DSPRecipe};
use crate::error::Error;
use vstd::prelude::*;

verus! {

/// A catalog: a kind of thing of which each has a number and a name.
pub trait DSPEnum: Copy + Sized {
    /// The number of the thing.
    spec fn number(self) -> u16;

    /// The name of the thing.
    spec fn title(self) -> Seq<char>;

    /// The number of the thing.
    fn underlying(self) -> (r: u16)
        ensures
            r == self.number(),
    ;

    /// The thing with the number `n`, where the catalog holds one.
    fn from_underlying(n: u16) -> (r: Option<Self>)
        ensures
            match r {
                Some(x) => x.number() == n,
                None => forall|x: Self| x.number() != n,
            },
    ;

    /// The thing with the name `s`, where the catalog holds one.
    fn from_title(s: &str) -> (r: Option<Self>)
        ensures
            match r {
                Some(x) => x.title() == s@,
                None => forall|x: Self| x.title() != s@,
            },
    ;

    /// What a thing of this catalog is called in a message.
    spec fn kind() -> Seq<char>;

    /// What a thing of this catalog is called in a message.
    fn pretty_name() -> (r: &'static str)
        ensures
            r@ == Self::kind(),
    ;

    /// No two things of the catalog share a number.
    proof fn lemma_number_injective(a: Self, b: Self)
        requires
            a.number() == b.number(),
        ensures
            a == b,
    ;

    /// No two things of the catalog share a name.
    proof fn lemma_title_injective(a: Self, b: Self)
        requires
            a.title() == b.title(),
        ensures
            a == b,
    ;
}

impl DSPEnum for DSPItem {
    open spec fn number(self) -> u16 {
        self.id()
    }

    open spec fn title(self) -> Seq<char> {
        self.name_spec()
    }

    fn underlying(self) -> (r: u16) {
        self.to_u16()
    }

    fn from_underlying(n: u16) -> (r: Option<Self>) {
        match DSPItem::try_from(n) {
            Ok(x) => Some(x),
            Err(_) => None,
        }
    }

    fn from_title(s: &str) -> (r: Option<Self>) {
        DSPItem::from_name(s)
    }

    open spec fn kind() -> Seq<char> {
        "item"@
    }

    fn pretty_name() -> (r: &'static str) {
        "item"
    }

    proof fn lemma_number_injective(a: Self, b: Self) {
        DSPItem::lemma_id_injective(a, b);
    }

    proof fn lemma_title_injective(a: Self, b: Self) {
        DSPItem::lemma_name_injective(a, b);
    }
}

impl DSPEnum for DSPRecipe {
    open spec fn number(self) -> u16 {
        self.id()
    }

    open spec fn title(self) -> Seq<char> {
        self.name_spec()
    }

    fn underlying(self) -> (r: u16) {
        self.to_u16()
    }

    fn from_underlying(n: u16) -> (r: Option<Self>) {
        match DSPRecipe::try_from(n) {
            Ok(x) => Some(x),
            Err(_) => None,
        }
    }

    fn from_title(s: &str) -> (r: Option<Self>) {
        DSPRecipe::from_name(s)
    }

    open spec fn kind() -> Seq<char> {
        "recipe"@
    }

    fn pretty_name() -> (r: &'static str) {
        "recipe"
    }

    proof fn lemma_number_injective(a: Self, b: Self) {
        DSPRecipe::lemma_id_injective(a, b);
    }

    proof fn lemma_title_injective(a: Self, b: Self) {
        DSPRecipe::lemma_name_injective(a, b);
    }
}

/// A thing that a user names.
pub trait TryFromUserString: Sized {
    /// Whether the thing is the one that the text names.
    spec fn named(self, s: Seq<char>) -> bool;

    /// The thing that the text names. Fails with the text where it names
    /// none.
    fn try_from_user_string(s: &str) -> (r: Result<Self, Error>)
        ensures
            match r {
                Ok(x) => x.named(s@),
                Err(e) => (e matches Error::UnknownName(name, _) && name@ == s@) && forall|x: Self|
                    !x.named(s@),
            },
    ;
}

impl<T: DSPEnum> TryFromUserString for T {
    open spec fn named(self, s: Seq<char>) -> bool {
        self.title() == s
    }

    fn try_from_user_string(s: &str) -> (r: Result<Self, Error>)
        ensures
            r matches Err(Error::UnknownName(_, kind)) ==> kind@ == T::kind(),
    {
        match T::from_title(s) {
            Some(x) => Ok(x),
            None => Err(Error::UnknownName(s.to_owned(), T::pretty_name())),
        }
    }
}

} // verus!
