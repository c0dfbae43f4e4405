//! The data model of an event edition, as the metadata API reports it.
//!
//! The surrounding program deserializes the API's JSON responses into its
//! own mirror structures and converts them into these types; everything the
//! pipeline decides is decided on these plain values.

use vstd::prelude::*;

verus! {

/// One map of a category: the content host's id for it, and the unique
/// identifier that becomes the output filename stem.
pub struct MapInfo {
    pub mx_id: i64,
    pub map_uid: String,
}

/// A category of an edition: a handle, unique within the edition and used
/// as a directory segment, and the maps it contains, in the order the API
/// reports them.
pub struct Category {
    pub handle: String,
    pub maps: Vec<MapInfo>,
}

/// Full metadata of one event edition.
pub struct EventEdition {
    pub name: String,
    pub mx_id: i32,
    pub categories: Vec<Category>,
}

/// A lightweight edition summary, used only while resolving which edition
/// to operate on.
pub struct SimpleEventEdition {
    pub id: u32,
    pub name: String,
}

/// The raw bytes of one downloaded map, paired with the identifier that
/// routes them to the correct output file.
pub struct DownloadedMap {
    pub map_uid: String,
    pub content: Vec<u8>,
}

/// The number of maps across a sequence of categories: one download is
/// issued per map, so this is the edition's total download count.
pub open spec fn total_maps(cats: Seq<Category>) -> nat
    decreases cats.len(),
{
    if cats.len() == 0 {
        0
    } else {
        total_maps(cats.drop_last()) + cats.last().maps@.len()
    }
}

/// A prefix of the categories never holds more maps than all of them.
proof fn lemma_total_maps_prefix(cats: Seq<Category>, k: int)
    requires
        0 <= k <= cats.len(),
    ensures
        total_maps(cats.take(k)) <= total_maps(cats),
    decreases cats.len(),
{
    if k < cats.len() {
        assert(cats.drop_last().take(k) =~= cats.take(k));
        lemma_total_maps_prefix(cats.drop_last(), k);
    } else {
        assert(cats.take(k) =~= cats);
    }
}

impl EventEdition {
    /// Counts the maps of all categories of this edition: how many
    /// concurrent downloads a run of the pipeline issues for it. `None`
    /// only when the total does not fit the machine's word size.
    pub fn total_map_count(&self) -> (r: Option<usize>)
        ensures
            r matches Some(n) ==> n as nat == total_maps(self.categories@),
            r is None <==> total_maps(self.categories@) > usize::MAX,
    {
        let mut sum: usize = 0;
        let mut k: usize = 0;
        while k < self.categories.len()
            invariant
                0 <= k <= self.categories@.len(),
                sum as nat == total_maps(self.categories@.take(k as int)),
            decreases self.categories@.len() - k,
        {
            proof {
                assert(self.categories@.take(k + 1).drop_last() =~= self.categories@.take(
                    k as int,
                ));
                assert(self.categories@.take(k + 1).last() == self.categories@[k as int]);
            }
            sum = match sum.checked_add(self.categories[k].maps.len()) {
                Some(s) => s,
                None => {
                    proof {
                        lemma_total_maps_prefix(self.categories@, k + 1);
                    }
                    return None;
                },
            };
            k = k + 1;
        }
        proof {
            assert(self.categories@.take(k as int) =~= self.categories@);
        }
        Some(sum)
    }
}

} // verus!
