//! Ground truth of each day: the photo and the time at which it was taken,
//! and the store that holds them.
use vstd::prelude::*;
use crate::text::{decimal_u32, parse_u32, split_at_colon, split_once_colon};

verus! {

/// A day of the season, from 1 to 25.
pub type Day = u32;

/// Metadata of the photo of one day.
#[derive(Clone, Debug)]
pub struct Picture {
    pub id: Day,
    pub path: String,
    pub original_date: String,
    pub time_taken: String,
    pub location: Option<String>,
}

/// What is known of the photo of a day: when it was taken (Unix seconds) and
/// where.
#[derive(Clone, Debug)]
pub struct AotImageMeta {
    pub day: Day,
    pub taken_at: i64,
    pub location: Option<String>,
}

/// The hour that a `HH:MM` time holds.
pub open spec fn hour_of(s: Seq<char>) -> Option<u32> {
    match split_once_colon(s) {
        Some((h, _)) => decimal_u32(h),
        None => None,
    }
}

/// The minute that a `HH:MM` time holds.
pub open spec fn minute_of(s: Seq<char>) -> Option<u32> {
    match split_once_colon(s) {
        Some((_, m)) => decimal_u32(m),
        None => None,
    }
}

/// Where the photo of a stored path lies: under `data/`, unless the path is
/// absolute.
pub open spec fn full_path(path: Seq<char>) -> Seq<char> {
    if path.len() > 0 && path[0] == '/' {
        path
    } else {
        "data/"@ + path
    }
}

pub fn clone_opt_string(s: &Option<String>) -> (r: Option<String>)
    ensures
        r == *s,
{
    match s {
        Some(v) => Some(v.clone()),
        None => None,
    }
}

impl Picture {
    pub fn day(&self) -> (r: Day)
        ensures
            r == self.id,
    {
        self.id
    }

    pub fn get_full_path(&self) -> (r: String)
        ensures
            r@ == full_path(self.path@),
    {
        let p = self.path.as_str();
        if p.unicode_len() > 0 && p.get_char(0) == '/' {
            return self.path.clone();
        }
        let mut r = String::from_str("data/");
        r.append(p);
        r
    }

    pub fn hours(&self) -> (r: Option<u32>)
        ensures
            r == hour_of(self.time_taken@),
    {
        match split_at_colon(self.time_taken.as_str()) {
            Some((h, _)) => parse_u32(h),
            None => None,
        }
    }

    pub fn minutes(&self) -> (r: Option<u32>)
        ensures
            r == minute_of(self.time_taken@),
    {
        match split_at_colon(self.time_taken.as_str()) {
            Some((_, m)) => parse_u32(m),
            None => None,
        }
    }

    /// A copy with the same fields.
    pub fn duplicate(&self) -> (r: Picture)
        ensures
            r == *self,
    {
        Picture {
            id: self.id,
            path: self.path.clone(),
            original_date: self.original_date.clone(),
            time_taken: self.time_taken.clone(),
            location: clone_opt_string(&self.location),
        }
    }
}

/// Why a change to a store was refused.
#[derive(Clone, Copy, Debug, PartialEq, Eq, Structural)]
pub enum StoreError {
    /// A record with the same key is already stored.
    AlreadyExists,
    /// No record with that key is stored.
    NotFound,
}

/// Index of the first picture of day `day`, if any.
pub open spec fn picture_index(s: Seq<Picture>, day: Day) -> Option<int> {
    if exists|i: int| 0 <= i < s.len() && s[i].id == day {
        Some(choose|i: int| 0 <= i < s.len() && s[i].id == day && forall|j: int| 0 <= j < i ==> s[j].id != day)
    } else {
        None
    }
}

/// The pictures of `s` for another day than `day`, in their order.
pub open spec fn pictures_without(s: Seq<Picture>, day: Day) -> Seq<Picture> {
    s.filter(|p: Picture| p.id != day)
}

/// The pictures of all days, held in memory in the order of the stored
/// collection; at most one per day once built through `create_picture`.
pub struct PictureMetaRepository {
    pub pictures: Vec<Picture>,
}

fn find_picture(s: &Vec<Picture>, day: Day) -> (r: Option<usize>)
    ensures
        r is None ==> forall|i: int| 0 <= i < s@.len() ==> s@[i].id != day,
        r matches Some(i) ==> i < s@.len() && s@[i as int].id == day && forall|j: int|
            0 <= j < i ==> s@[j].id != day,
{
    let mut i: usize = 0;
    while i < s.len()
        invariant
            i <= s@.len(),
            forall|j: int| 0 <= j < i ==> s@[j].id != day,
        decreases s@.len() - i,
    {
        if s[i].id == day {
            return Some(i);
        }
        i = i + 1;
    }
    None
}

proof fn lemma_first_index_unique(s: Seq<Picture>, day: Day, i: int)
    requires
        0 <= i < s.len(),
        s[i].id == day,
        forall|j: int| 0 <= j < i ==> s[j].id != day,
    ensures
        picture_index(s, day) == Some(i),
{
    let k = choose|k: int| 0 <= k < s.len() && s[k].id == day && forall|j: int| 0 <= j < k ==> s[j].id != day;
    assert(0 <= k < s.len() && s[k].id == day && forall|j: int| 0 <= j < k ==> s[j].id != day);
    if k < i {
        assert(s[k].id != day);
    } else if i < k {
        assert(s[i].id != day);
    }
}

/// Copies the pictures of `s` for another day than `day`.
fn retain_other_days(s: &Vec<Picture>, day: Day) -> (r: Vec<Picture>)
    ensures
        r@ == pictures_without(s@, day),
{
    let mut out: Vec<Picture> = Vec::new();
    let mut i: usize = 0;
    while i < s.len()
        invariant
            i <= s@.len(),
            out@ == pictures_without(s@.subrange(0, i as int), day),
        decreases s@.len() - i,
    {
        proof {
            reveal(Seq::filter);
            assert(s@.subrange(0, i + 1).drop_last() =~= s@.subrange(0, i as int));
        }
        if s[i].id != day {
            out.push(s[i].duplicate());
        }
        i = i + 1;
    }
    assert(s@.subrange(0, s@.len() as int) =~= s@);
    out
}

impl PictureMetaRepository {
    pub fn new(pictures: Vec<Picture>) -> (r: PictureMetaRepository)
        ensures
            r.pictures@ == pictures@,
    {
        PictureMetaRepository { pictures }
    }

    /// The picture of day `day`: the first stored one, if any.
    pub fn get_picture(&self, day: Day) -> (r: Option<Picture>)
        ensures
            r is None <==> picture_index(self.pictures@, day) is None,
            r matches Some(p) ==> p == self.pictures@[picture_index(self.pictures@, day)->0],
    {
        match find_picture(&self.pictures, day) {
            Some(i) => {
                proof {
                    lemma_first_index_unique(self.pictures@, day, i as int);
                }
                Some(self.pictures[i].duplicate())
            },
            None => None,
        }
    }

    pub fn get_all_pictures(&self) -> (r: Vec<Picture>)
        ensures
            r@ == self.pictures@,
    {
        let mut out: Vec<Picture> = Vec::new();
        let mut i: usize = 0;
        while i < self.pictures.len()
            invariant
                i <= self.pictures@.len(),
                out@ =~= self.pictures@.subrange(0, i as int),
            decreases self.pictures@.len() - i,
        {
            out.push(self.pictures[i].duplicate());
            i = i + 1;
        }
        out
    }

    /// Adds a picture for a day that has none yet.
    pub fn create_picture(&mut self, picture: Picture) -> (r: Result<(), StoreError>)
        ensures
            r is Err <==> picture_index(old(self).pictures@, picture.id) is Some,
            r is Err ==> r == Err::<(), StoreError>(StoreError::AlreadyExists) && final(self).pictures@
                == old(self).pictures@,
            r is Ok ==> final(self).pictures@ == old(self).pictures@.push(picture),
    {
        if find_picture(&self.pictures, picture.id).is_some() {
            return Err(StoreError::AlreadyExists);
        }
        self.pictures.push(picture);
        Ok(())
    }

    /// Replaces the pictures of the day of `picture` by `picture`, placed last.
    pub fn update_picture(&mut self, picture: Picture) -> (r: Result<(), StoreError>)
        ensures
            r is Err <==> picture_index(old(self).pictures@, picture.id) is None,
            r is Err ==> r == Err::<(), StoreError>(StoreError::NotFound) && final(self).pictures@
                == old(self).pictures@,
            r is Ok ==> final(self).pictures@ == pictures_without(old(self).pictures@, picture.id).push(
                picture,
            ),
    {
        if find_picture(&self.pictures, picture.id).is_none() {
            return Err(StoreError::NotFound);
        }
        let mut kept = retain_other_days(&self.pictures, picture.id);
        kept.push(picture);
        self.pictures = kept;
        Ok(())
    }

    /// Removes the pictures of the day of `picture`.
    pub fn delete_picture(&mut self, picture: &Picture)
        ensures
            final(self).pictures@ == pictures_without(old(self).pictures@, picture.id),
    {
        self.pictures = retain_other_days(&self.pictures, picture.id);
    }
}

} // verus!
