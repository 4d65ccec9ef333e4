//! Picture records and the breed data that comes with them.

use vstd::prelude::*;

verus! {

/// The value of a [`Weight`]: two texts.
pub struct WeightView {
    pub imperial: Seq<char>,
    pub metric: Seq<char>,
}

/// The value of a [`Breed`].
pub struct BreedView {
    pub name: Seq<char>,
    pub weight: WeightView,
    pub life_span: Seq<char>,
}

/// The value of an [`AnimalRecord`]: its address and the breeds in order.
pub struct RecordView {
    pub url: Seq<char>,
    pub breeds: Seq<BreedView>,
}

/// Weight range of a breed, as text, in both unit systems.
#[derive(Debug, PartialEq, Eq)]
pub struct Weight {
    pub imperial: String,
    pub metric: String,
}

/// One breed shown on a picture.
#[derive(Debug, PartialEq, Eq)]
pub struct Breed {
    pub name: String,
    pub weight: Weight,
    pub life_span: String,
}

/// One picture: where it lives and which breeds it shows.
#[derive(Debug, PartialEq, Eq)]
pub struct AnimalRecord {
    pub url: String,
    pub breeds: Vec<Breed>,
}

impl View for Weight {
    type V = WeightView;

    open spec fn view(&self) -> WeightView {
        WeightView { imperial: self.imperial@, metric: self.metric@ }
    }
}

impl View for Breed {
    type V = BreedView;

    open spec fn view(&self) -> BreedView {
        BreedView { name: self.name@, weight: self.weight@, life_span: self.life_span@ }
    }
}

impl View for AnimalRecord {
    type V = RecordView;

    open spec fn view(&self) -> RecordView {
        RecordView { url: self.url@, breeds: breed_views(self.breeds@) }
    }
}

/// The values of a sequence of breeds, position by position.
pub open spec fn breed_views(s: Seq<Breed>) -> Seq<BreedView> {
    s.map_values(|b: Breed| b@)
}

/// The values of a sequence of records, position by position.
pub open spec fn record_views(s: Seq<AnimalRecord>) -> Seq<RecordView> {
    s.map_values(|r: AnimalRecord| r@)
}

impl Clone for Weight {
    fn clone(&self) -> (r: Self)
        ensures
            r@ == self@,
    {
        Weight { imperial: self.imperial.clone(), metric: self.metric.clone() }
    }
}

impl Default for Weight {
    /// Both texts empty: what a breed without weight data carries.
    fn default() -> (r: Self)
        ensures
            r@ == (WeightView { imperial: Seq::empty(), metric: Seq::empty() }),
    {
        Weight { imperial: String::new(), metric: String::new() }
    }
}

impl Weight {
    /// Whether two weights hold the same texts.
    pub fn same(&self, other: &Weight) -> (b: bool)
        ensures
            b == (self@ == other@),
    {
        self.imperial == other.imperial && self.metric == other.metric
    }
}

impl Clone for Breed {
    fn clone(&self) -> (r: Self)
        ensures
            r@ == self@,
    {
        Breed {
            name: self.name.clone(),
            weight: self.weight.clone(),
            life_span: self.life_span.clone(),
        }
    }
}

impl Default for Breed {
    /// A breed with every text empty.
    fn default() -> (r: Self)
        ensures
            r@ == (BreedView {
                name: Seq::empty(),
                weight: WeightView { imperial: Seq::empty(), metric: Seq::empty() },
                life_span: Seq::empty(),
            }),
    {
        Breed { name: String::new(), weight: Weight::default(), life_span: String::new() }
    }
}

impl Breed {
    /// Whether two breeds agree in every field.
    pub fn same(&self, other: &Breed) -> (b: bool)
        ensures
            b == (self@ == other@),
    {
        self.name == other.name && self.weight.same(&other.weight) && self.life_span
            == other.life_span
    }
}

/// Whether two breed lists agree in length and position by position.
fn breeds_same(a: &Vec<Breed>, b: &Vec<Breed>) -> (r: bool)
    ensures
        r == (breed_views(a@) == breed_views(b@)),
{
    if a.len() != b.len() {
        assert(breed_views(a@).len() != breed_views(b@).len());
        return false;
    }
    let mut i: usize = 0;
    while i < a.len()
        invariant
            a.len() == b.len(),
            i <= a.len(),
            forall|k: int| 0 <= k < i ==> a@[k]@ == b@[k]@,
        decreases a.len() - i,
    {
        if !a[i].same(&b[i]) {
            assert(breed_views(a@)[i as int] != breed_views(b@)[i as int]);
            return false;
        }
        i += 1;
    }
    assert(breed_views(a@) =~= breed_views(b@));
    true
}

/// A fresh list with the same breeds in the same order.
fn breeds_copy(a: &Vec<Breed>) -> (r: Vec<Breed>)
    ensures
        breed_views(r@) == breed_views(a@),
{
    let mut out: Vec<Breed> = Vec::new();
    let mut i: usize = 0;
    while i < a.len()
        invariant
            i <= a.len(),
            out.len() == i,
            forall|k: int| 0 <= k < i ==> out@[k]@ == a@[k]@,
        decreases a.len() - i,
    {
        out.push(a[i].clone());
        i += 1;
    }
    assert(breed_views(out@) =~= breed_views(a@));
    out
}

impl Clone for AnimalRecord {
    fn clone(&self) -> (r: Self)
        ensures
            r@ == self@,
    {
        AnimalRecord { url: self.url.clone(), breeds: breeds_copy(&self.breeds) }
    }
}

impl AnimalRecord {
    /// A record without breed data.
    pub fn new(url: String) -> (r: Self)
        ensures
            r@ == (RecordView { url: url@, breeds: Seq::empty() }),
    {
        let r = AnimalRecord { url, breeds: Vec::new() };
        assert(breed_views(r.breeds@) =~= Seq::empty());
        r
    }

    /// Structural equality: the same address and the same breeds in the
    /// same order.
    pub fn same(&self, other: &AnimalRecord) -> (b: bool)
        ensures
            b == (self@ == other@),
    {
        self.url == other.url && breeds_same(&self.breeds, &other.breeds)
    }
}

/// A fresh list with the same records in the same order.
pub fn records_copy(a: &Vec<AnimalRecord>) -> (r: Vec<AnimalRecord>)
    ensures
        record_views(r@) == record_views(a@),
{
    let mut out: Vec<AnimalRecord> = Vec::new();
    let mut i: usize = 0;
    while i < a.len()
        invariant
            i <= a.len(),
            out.len() == i,
            forall|k: int| 0 <= k < i ==> out@[k]@ == a@[k]@,
        decreases a.len() - i,
    {
        out.push(a[i].clone());
        i += 1;
    }
    assert(record_views(out@) =~= record_views(a@));
    out
}

} // verus!
