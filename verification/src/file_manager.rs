//! The track list: the paths found in a directory, the order in which they
//! are played, and the place of the current track in that order.

use vstd::prelude::*;
use vstd::seq_lib::lemma_multiset_commutative;
use vstd::seq_lib::to_multiset_contains;
use rand::seq::SliceRandom;

verus! {

/// `rand::rngs::ThreadRng`, the thread's random number generator. The library
/// only carries it.
#[verifier::external_type_specification]
#[verifier::external_body]
pub struct ExThreadRng(rand::rngs::ThreadRng);

/// Calls `rand::thread_rng`. Nothing is claimed of the generator.
#[verifier::external_body]
pub(crate) fn thread_rng() -> (rng: rand::rngs::ThreadRng) {
    rand::thread_rng()
}

/// Calls `rand::seq::SliceRandom::shuffle` on `order[start..end]`. The
/// outcome is random; what holds of every outcome is that the items outside
/// the range stay and those inside are rearranged among themselves.
#[verifier::external_body]
pub(crate) fn shuffle_range(
    order: &mut Vec<usize>,
    start: usize,
    end: usize,
    rng: &mut rand::rngs::ThreadRng,
)
    requires
        start <= end <= old(order)@.len(),
    ensures
        final(order)@.len() == old(order)@.len(),
        forall|i: int|
            0 <= i < start || end <= i < old(order)@.len() ==> final(order)@[i] == old(order)@[i],
        final(order)@.subrange(start as int, end as int).to_multiset() == old(order)@.subrange(
            start as int,
            end as int,
        ).to_multiset(),
{
    order[start..end].shuffle(rng);
}

/// The order `0, 1, .., n - 1`.
pub open spec fn identity_order(n: nat) -> Seq<usize> {
    Seq::new(n, |i: int| i as usize)
}

/// Whether `order` holds each of `0, 1, .., order.len() - 1` exactly once.
pub open spec fn is_order(order: Seq<usize>) -> bool {
    order.to_multiset() == identity_order(order.len()).to_multiset()
}

/// The views of a list of paths.
pub open spec fn path_views(paths: Seq<String>) -> Seq<Seq<char>> {
    paths.map_values(|p: String| p@)
}

/// Every entry of an order is an index into it.
pub proof fn lemma_order_in_range(order: Seq<usize>, i: int)
    requires
        is_order(order),
        order.len() <= usize::MAX,
        0 <= i < order.len(),
    ensures
        order[i] < order.len(),
{
    let identity = identity_order(order.len());
    assert(order.contains(order[i]));
    to_multiset_contains(order, order[i]);
    to_multiset_contains(identity, order[i]);
    let j = choose|j: int| 0 <= j < identity.len() && identity[j] == order[i];
    assert(identity[j] == j);
}

/// An order that is rearranged within two ranges around a fixed entry is
/// still an order.
pub proof fn lemma_rearranged_is_order(before: Seq<usize>, after: Seq<usize>, cur: int)
    requires
        is_order(before),
        after.len() == before.len(),
        0 <= cur < before.len(),
        after[cur] == before[cur],
        after.subrange(0, cur).to_multiset() == before.subrange(0, cur).to_multiset(),
        after.subrange(cur + 1, after.len() as int).to_multiset() == before.subrange(
            cur + 1,
            before.len() as int,
        ).to_multiset(),
    ensures
        is_order(after),
{
    let n = before.len() as int;
    let head = cur + 1;
    assert(before =~= before.subrange(0, cur).push(before[cur]) + before.subrange(head, n));
    assert(after =~= after.subrange(0, cur).push(after[cur]) + after.subrange(head, n));
    lemma_multiset_commutative(before.subrange(0, cur).push(before[cur]), before.subrange(head, n));
    lemma_multiset_commutative(after.subrange(0, cur).push(after[cur]), after.subrange(head, n));
    before.subrange(0, cur).to_multiset_ensures();
    after.subrange(0, cur).to_multiset_ensures();
}

/// The track list as mathematical values.
pub struct PlaylistView {
    /// The paths, in the order in which they were found.
    pub paths: Seq<Seq<char>>,
    /// The playing order: `order[k]` is the index, among the paths, of the
    /// track played in place `k`.
    pub order: Seq<usize>,
    /// The place of the current track in the playing order.
    pub cur: nat,
    pub is_shuffled: bool,
}

impl PlaylistView {
    /// Validity of a track list: it is not empty, the playing order holds
    /// every path once, and the current place lies in it.
    pub open spec fn wf(self) -> bool {
        &&& 1 <= self.paths.len() <= usize::MAX
        &&& self.order.len() == self.paths.len()
        &&& is_order(self.order)
        &&& self.cur < self.order.len()
    }

    /// Index, among the paths, of the current track.
    pub open spec fn current_index(self) -> nat {
        self.order[self.cur as int] as nat
    }

    /// Path of the current track.
    pub open spec fn current(self) -> Seq<char> {
        self.paths[self.current_index() as int]
    }

    /// Number of tracks after the current one in the playing order.
    pub open spec fn tracks_left(self) -> nat {
        (self.order.len() - 1 - self.cur) as nat
    }

    /// The list after it went back to the order in which the paths were found,
    /// staying on the same track.
    pub open spec fn unshuffled(self) -> PlaylistView {
        PlaylistView {
            order: identity_order(self.order.len()),
            cur: self.current_index(),
            is_shuffled: false,
            ..self
        }
    }

    /// Whether `after` is `self` shuffled around the current track: the same
    /// paths, the current track in its place, and the tracks before it and
    /// those after it each rearranged among themselves.
    pub open spec fn shuffled_into(self, after: PlaylistView) -> bool {
        &&& after.paths == self.paths
        &&& after.cur == self.cur
        &&& after.is_shuffled
        &&& after.order.len() == self.order.len()
        &&& after.order[self.cur as int] == self.order[self.cur as int]
        &&& after.order.subrange(0, self.cur as int).to_multiset() == self.order.subrange(
            0,
            self.cur as int,
        ).to_multiset()
        &&& after.order.subrange(self.cur as int + 1, self.order.len() as int).to_multiset()
            == self.order.subrange(self.cur as int + 1, self.order.len() as int).to_multiset()
    }
}

/// The track list of a directory.
pub struct FileManager {
    file_paths: Vec<String>,
    indexes: Vec<usize>,
    cur: usize,
    size: usize,
    is_shuffled: bool,
}

impl View for FileManager {
    type V = PlaylistView;

    closed spec fn view(&self) -> PlaylistView {
        PlaylistView {
            paths: path_views(self.file_paths@),
            order: self.indexes@,
            cur: self.cur as nat,
            is_shuffled: self.is_shuffled,
        }
    }
}

impl FileManager {
    /// Validity of the track list.
    pub closed spec fn wf(&self) -> bool {
        &&& self@.wf()
        &&& self.size == self.file_paths@.len()
    }

    /// A valid track list has a valid view.
    pub proof fn lemma_wf_view(&self)
        requires
            self.wf(),
        ensures
            self@.wf(),
    {
    }

    /// The paths, in the order in which they were found.
    pub fn file_paths(&self) -> (paths: &Vec<String>)
        ensures
            path_views(paths@) == self@.paths,
    {
        &self.file_paths
    }

    /// The track list of the given paths, in the order in which they were
    /// found, on the first of them. An empty list is an error.
    pub fn new(file_paths: Vec<String>) -> (r: Result<FileManager, ()>)
        ensures
            file_paths@.len() == 0 ==> r is Err,
            file_paths@.len() > 0 ==> (r matches Ok(manager) && manager.wf() && manager@ == (
            PlaylistView {
                paths: path_views(file_paths@),
                order: identity_order(file_paths@.len()),
                cur: 0,
                is_shuffled: false,
            })),
    {
        let len: usize = file_paths.len();
        if len != 0 {
            let indexes: Vec<usize> = identity_indexes(len);
            Ok(FileManager { file_paths, indexes, cur: 0, size: len, is_shuffled: false })
        } else {
            Err(())
        }
    }

    /// Whether the playing order is shuffled.
    pub fn is_shuffled(&self) -> (shuffled: bool)
        ensures
            shuffled == self@.is_shuffled,
    {
        self.is_shuffled
    }

    /// Index, among the paths, of the current track.
    pub fn current_index(&self) -> (index: usize)
        requires
            self.wf(),
        ensures
            index == self@.current_index(),
            index < self@.paths.len(),
    {
        proof {
            lemma_order_in_range(self.indexes@, self.cur as int);
        }
        self.indexes[self.cur]
    }

    /// Path of the current track.
    pub fn get_current(&self) -> (path: String)
        requires
            self.wf(),
        ensures
            path@ == self@.current(),
    {
        let index: usize = self.current_index();
        self.file_paths[index].clone()
    }

    /// Number of tracks after the current one in the playing order.
    pub fn tracks_left(&self) -> (left: usize)
        requires
            self.wf(),
        ensures
            left == self@.tracks_left(),
    {
        self.size - 1 - self.cur
    }

    /// Moves to the next track in the playing order and gives its path; on
    /// the last track nothing moves.
    pub fn next(&mut self) -> (path: Option<String>)
        requires
            old(self).wf(),
        ensures
            final(self).wf(),
            old(self)@.tracks_left() > 0 ==> {
                &&& final(self)@ == (PlaylistView { cur: old(self)@.cur + 1, ..old(self)@ })
                &&& path matches Some(p)
                &&& p@ == final(self)@.current()
            },
            old(self)@.tracks_left() == 0 ==> final(self)@ == old(self)@ && path is None,
    {
        if self.cur < self.size - 1 {
            self.cur = self.cur + 1;
            Some(self.get_current())
        } else {
            None
        }
    }

    /// Moves to the previous track in the playing order and gives its path; on
    /// the first track nothing moves.
    pub fn prev(&mut self) -> (path: Option<String>)
        requires
            old(self).wf(),
        ensures
            final(self).wf(),
            old(self)@.cur > 0 ==> {
                &&& final(self)@ == (PlaylistView {
                    cur: (old(self)@.cur - 1) as nat,
                    ..old(self)@
                })
                &&& path matches Some(p)
                &&& p@ == final(self)@.current()
            },
            old(self)@.cur == 0 ==> final(self)@ == old(self)@ && path is None,
    {
        if self.cur > 0 {
            self.cur = self.cur - 1;
            Some(self.get_current())
        } else {
            None
        }
    }

    /// Moves to place `new_index` of the playing order, where there is such a
    /// place.
    pub fn set_index(&mut self, new_index: usize)
        requires
            old(self).wf(),
        ensures
            final(self).wf(),
            new_index < old(self)@.order.len() ==> final(self)@ == (PlaylistView {
                cur: new_index as nat,
                ..old(self)@
            }),
            new_index >= old(self)@.order.len() ==> final(self)@ == old(self)@,
    {
        if new_index < self.size {
            self.cur = new_index;
        }
    }

    /// Paths of the tracks in places `start..end` of the playing order.
    pub fn get_paths(&self, start: usize, end: usize) -> (paths: Vec<String>)
        requires
            self.wf(),
            start <= end <= self@.order.len(),
        ensures
            paths@.len() == end - start,
            forall|k: int|
                0 <= k < end - start ==> (#[trigger] paths@[k])@ == self@.paths[self@.order[start
                    + k] as int],
    {
        let mut result: Vec<String> = Vec::new();
        let mut place: usize = start;
        while place < end
            invariant
                self.wf(),
                start <= place <= end <= self@.order.len(),
                result@.len() == place - start,
                forall|k: int|
                    0 <= k < place - start ==> (#[trigger] result@[k])@
                        == self@.paths[self@.order[start + k] as int],
            decreases end - place,
        {
            proof {
                lemma_order_in_range(self.indexes@, place as int);
            }
            let index: usize = self.indexes[place];
            result.push(self.file_paths[index].clone());
            place = place + 1;
        }
        result
    }

    /// Shuffles the playing order around the current track, or goes back to
    /// the order in which the paths were found.
    pub fn make_shuffled(&mut self, shuffle: bool)
        requires
            old(self).wf(),
        ensures
            final(self).wf(),
            final(self)@.paths == old(self)@.paths,
            final(self)@.current() == old(self)@.current(),
            shuffle ==> old(self)@.shuffled_into(final(self)@),
            !shuffle ==> final(self)@ == old(self)@.unshuffled(),
    {
        if shuffle {
            self.is_shuffled = true;
            let cur_index: usize = self.cur;
            let ghost before = self.indexes@;
            let ghost tail = cur_index as int + 1;
            let ghost end = self.size as int;
            let mut rng = thread_rng();
            shuffle_range(&mut self.indexes, 0, cur_index, &mut rng);
            let ghost middle = self.indexes@;
            assert(middle.subrange(tail, end) =~= before.subrange(tail, end));
            if self.cur != self.size - 1 {
                shuffle_range(&mut self.indexes, cur_index + 1, self.size, &mut rng);
                assert(self.indexes@.subrange(0, cur_index as int) =~= middle.subrange(
                    0,
                    cur_index as int,
                ));
            }
            proof {
                lemma_rearranged_is_order(before, self.indexes@, cur_index as int);
            }
        } else {
            self.is_shuffled = false;
            let index: usize = self.current_index();
            self.cur = index;
            self.indexes = identity_indexes(self.size);
        }
    }

    /// Turns shuffling on where it was off, and off where it was on.
    pub fn toggle_shuffle(&mut self)
        requires
            old(self).wf(),
        ensures
            final(self).wf(),
            final(self)@.paths == old(self)@.paths,
            final(self)@.current() == old(self)@.current(),
            !old(self)@.is_shuffled ==> old(self)@.shuffled_into(final(self)@),
            old(self)@.is_shuffled ==> final(self)@ == old(self)@.unshuffled(),
    {
        self.is_shuffled = !self.is_shuffled;
        let shuffle: bool = self.is_shuffled;
        self.make_shuffled(shuffle);
    }
}

/// Builds the order `0, 1, .., n - 1`.
pub fn identity_indexes(n: usize) -> (indexes: Vec<usize>)
    ensures
        indexes@ == identity_order(n as nat),
{
    let mut indexes: Vec<usize> = Vec::new();
    let mut i: usize = 0;
    while i < n
        invariant
            i <= n,
            indexes@ == identity_order(i as nat),
        decreases n - i,
    {
        indexes.push(i);
        i = i + 1;
        assert(indexes@ =~= identity_order(i as nat));
    }
    indexes
}

} // verus!
