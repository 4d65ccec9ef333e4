//! The two favorites lists of the gallery, one for dogs and one for cats.

use crate::favorites::{liked, unliked, FavoritesList};
use crate::record::{record_views, AnimalRecord, RecordView};
use vstd::prelude::*;

verus! {

/// The liked dogs and the liked cats. The two lists share nothing: what is
/// done to one leaves the other as it was.
pub struct Gallery {
    dogs: FavoritesList,
    cats: FavoritesList,
}

impl Gallery {
    /// The liked dogs, first liked first.
    pub closed spec fn dogs(&self) -> Seq<RecordView> {
        self.dogs@
    }

    /// The liked cats, first liked first.
    pub closed spec fn cats(&self) -> Seq<RecordView> {
        self.cats@
    }

    /// A gallery in which nothing is liked yet.
    pub fn new() -> (g: Self)
        ensures
            g.dogs() == Seq::<RecordView>::empty(),
            g.cats() == Seq::<RecordView>::empty(),
    {
        Gallery { dogs: FavoritesList::new(), cats: FavoritesList::new() }
    }

    /// Likes a dog: it joins the end of the dog list unless an equal record
    /// is there already.
    pub fn like_dog(&mut self, dog: AnimalRecord)
        ensures
            final(self).dogs() == liked(old(self).dogs(), dog@),
            final(self).cats() == old(self).cats(),
    {
        self.dogs.like(dog);
    }

    /// Unlikes a dog address: every dog with this address leaves.
    pub fn unlike_dog(&mut self, dog_url: &str)
        ensures
            final(self).dogs() == unliked(old(self).dogs(), dog_url@),
            final(self).cats() == old(self).cats(),
    {
        self.dogs.unlike(dog_url);
    }

    /// A copy of the liked dogs, first liked first, no record twice.
    pub fn get_liked_dog_data(&self) -> (r: Vec<AnimalRecord>)
        ensures
            record_views(r@) == self.dogs(),
            self.dogs().no_duplicates(),
    {
        self.dogs.list()
    }

    /// Likes a cat: it joins the end of the cat list unless an equal record
    /// is there already.
    pub fn like_cat(&mut self, cat: AnimalRecord)
        ensures
            final(self).cats() == liked(old(self).cats(), cat@),
            final(self).dogs() == old(self).dogs(),
    {
        self.cats.like(cat);
    }

    /// Unlikes a cat address: every cat with this address leaves.
    pub fn unlike_cat(&mut self, cat_url: &str)
        ensures
            final(self).cats() == unliked(old(self).cats(), cat_url@),
            final(self).dogs() == old(self).dogs(),
    {
        self.cats.unlike(cat_url);
    }

    /// A copy of the liked cats, first liked first, no record twice.
    pub fn get_liked_cat_data(&self) -> (r: Vec<AnimalRecord>)
        ensures
            record_views(r@) == self.cats(),
            self.cats().no_duplicates(),
    {
        self.cats.list()
    }
}

} // verus!
