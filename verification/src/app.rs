//! The navigation state machine: the selection across the two linked
//! panes (artists, tracks), the derived per-artist track list, and the
//! dispatch of key input to navigation or to remote-control commands.

use crate::api::{Api, Request};
use crate::db::Track;
use crate::text::{
    lemma_str_lt_connected, lemma_str_lt_transitive, pop_char, push_char, str_eq, str_lt,
    str_lt_exec,
};
use crate::widgets::{wrap_next, wrap_prev, ListState, StatefulList, TableState};
use vstd::prelude::*;

verus! {

/// The two navigable panes.
#[derive(Debug, PartialEq, Clone, Copy)]
pub enum Pane {
    Artists,
    Tracks,
}

/// Whether key input navigates or accumulates a search string.
#[derive(Debug, PartialEq, Clone, Copy)]
pub enum Mode {
    Normal,
    SearchInput,
}

/// A distinct artist name drawn from the catalog.
#[derive(Debug)]
pub struct Artist {
    pub name: String,
}

/// What a key event asks the outer loop to do beyond the state change:
/// nothing, send one built command, fetch the queue and then play, or
/// run one volume step in the given direction.
#[derive(Debug)]
pub enum Action {
    Nothing,
    Send(Request),
    Play,
    VolumeUp,
    VolumeDown,
}

/// The indices of the catalog tracks whose artist is `artist`, in
/// original catalog order.
pub open spec fn track_indices(catalog: Seq<Track>, artist: Seq<char>) -> Seq<usize>
    decreases catalog.len(),
{
    if catalog.len() == 0 {
        Seq::empty()
    } else {
        let prefix = track_indices(catalog.drop_last(), artist);
        if catalog.last().artist@ == artist {
            prefix.push((catalog.len() - 1) as usize)
        } else {
            prefix
        }
    }
}

/// Some catalog track has this artist name.
pub open spec fn catalog_has_artist(catalog: Seq<Track>, name: Seq<char>) -> bool {
    exists|j: int| 0 <= j < catalog.len() && catalog[j].artist@ == name
}

/// `track_indices` is exactly the filter of the catalog by artist:
/// every listed index is in bounds and names a track of that artist,
/// the indices come in ascending catalog order, and every catalog track
/// of that artist is listed.
pub proof fn lemma_track_indices(catalog: Seq<Track>, artist: Seq<char>)
    requires
        catalog.len() <= usize::MAX,
    ensures
        forall|k: int| 0 <= k < track_indices(catalog, artist).len() ==> (
        #[trigger] track_indices(catalog, artist)[k]) < catalog.len(),
        forall|k: int| 0 <= k < track_indices(catalog, artist).len()
            ==> catalog[#[trigger] track_indices(catalog, artist)[k] as int].artist@ == artist,
        forall|k1: int, k2: int|
            0 <= k1 < k2 < track_indices(catalog, artist).len() ==> (
            #[trigger] track_indices(catalog, artist)[k1]) < (
            #[trigger] track_indices(catalog, artist)[k2]),
        forall|i: int| 0 <= i < catalog.len() && (#[trigger] catalog[i].artist@) == artist
            ==> track_indices(catalog, artist).contains(i as usize),
    decreases catalog.len(),
{
    if catalog.len() > 0 {
        let pre = catalog.drop_last();
        lemma_track_indices(pre, artist);
        let whole = track_indices(catalog, artist);
        let prefix = track_indices(pre, artist);
        assert forall|k: int| 0 <= k < prefix.len() implies catalog[#[trigger] prefix[k] as int]
            == pre[prefix[k] as int] by {}
        assert forall|i: int|
            0 <= i < catalog.len() && (#[trigger] catalog[i].artist@) == artist implies whole
            .contains(i as usize) by {
            if i < catalog.len() - 1 {
                assert(pre[i] == catalog[i]);
                assert(prefix.contains(i as usize));
                let w = choose|w: int| 0 <= w < prefix.len() && prefix[w] == i as usize;
                assert(whole[w] == i as usize);
            } else {
                assert(whole[whole.len() - 1] == i as usize);
            }
        }
    }
}

/// An artist with at least one catalog track has a non-empty track list.
pub proof fn lemma_track_indices_nonempty(catalog: Seq<Track>, artist: Seq<char>)
    requires
        catalog.len() <= usize::MAX,
        catalog_has_artist(catalog, artist),
    ensures
        track_indices(catalog, artist).len() > 0,
{
    lemma_track_indices(catalog, artist);
    let i = choose|i: int| 0 <= i < catalog.len() && catalog[i].artist@ == artist;
    assert(track_indices(catalog, artist).contains(i as usize));
}

/// The indices of the catalog tracks whose artist equals `artist`.
fn compute_tracks(catalog: &Vec<Track>, artist: &String) -> (r: Vec<usize>)
    ensures
        r@ == track_indices(catalog@, artist@),
{
    let mut r: Vec<usize> = Vec::new();
    let mut i: usize = 0;
    while i < catalog.len()
        invariant
            i <= catalog@.len(),
            r@ == track_indices(catalog@.take(i as int), artist@),
        decreases catalog@.len() - i,
    {
        proof {
            assert(catalog@.take(i as int + 1).drop_last() =~= catalog@.take(i as int));
            assert(catalog@.take(i as int + 1).last() == catalog@[i as int]);
        }
        if catalog[i].artist.eq(artist) {
            r.push(i);
        }
        i += 1;
    }
    proof {
        assert(catalog@.take(catalog@.len() as int) =~= catalog@);
    }
    r
}

/// Strictly ascending name views: sorted and free of duplicates.
pub open spec fn names_sorted(l: Seq<String>) -> bool {
    forall|i: int, j: int| 0 <= i < j < l.len() ==> str_lt(#[trigger] l[i]@, #[trigger] l[j]@)
}

/// Some element's view equals `s`.
pub open spec fn names_contain(l: Seq<String>, s: Seq<char>) -> bool {
    exists|i: int| 0 <= i < l.len() && (#[trigger] l[i]@) == s
}

/// Inserts `name` into a sorted duplicate-free list, keeping it sorted
/// and duplicate-free; a name already present is left alone.
fn insert_name(list: &mut Vec<String>, name: &str)
    requires
        names_sorted(old(list)@),
    ensures
        names_sorted(final(list)@),
        forall|s: Seq<char>|
            #[trigger] names_contain(final(list)@, s) <==> (names_contain(old(list)@, s) || s
                == name@),
{
    let ghost pre = list@;
    let mut pos: usize = 0;
    while pos < list.len() && str_lt_exec(list[pos].as_str(), name)
        invariant
            pos <= pre.len(),
            list@ == pre,
            names_sorted(pre),
            forall|k: int| 0 <= k < pos ==> str_lt(#[trigger] pre[k]@, name@),
        decreases pre.len() - pos,
    {
        pos += 1;
    }
    if pos < list.len() && str_eq(list[pos].as_str(), name) {
        proof {
            assert(names_contain(pre, name@));
            assert forall|s: Seq<char>|
                #[trigger] names_contain(list@, s) <==> (names_contain(pre, s) || s == name@) by {
                if s == name@ {
                    assert(pre[pos as int]@ == s);
                    assert(names_contain(pre, s));
                }
            }
        }
        return ;
    }
    proof {
        if pos < pre.len() {
            lemma_str_lt_connected(pre[pos as int]@, name@);
            assert(str_lt(name@, pre[pos as int]@));
        }
        assert forall|k: int| pos <= k < pre.len() implies str_lt(name@, #[trigger] pre[k]@) by {
            if k > pos {
                assert(str_lt(pre[pos as int]@, pre[k]@));
                lemma_str_lt_transitive(name@, pre[pos as int]@, pre[k]@);
            }
        }
    }
    let owned = name.to_owned();
    list.insert(pos, owned);
    proof {
        let post = list@;
        assert(post.len() == pre.len() + 1);
        assert forall|i: int, j: int| 0 <= i < j < post.len() implies str_lt(
            #[trigger] post[i]@,
            #[trigger] post[j]@,
        ) by {
            if j < pos {
                assert(post[i] == pre[i] && post[j] == pre[j]);
            } else if j == pos {
                assert(post[i] == pre[i] && post[j]@ == name@);
            } else if i < pos {
                assert(post[i] == pre[i] && post[j] == pre[j - 1]);
                assert(str_lt(pre[i]@, name@));
                assert(str_lt(name@, pre[j - 1]@));
                lemma_str_lt_transitive(pre[i]@, name@, pre[j - 1]@);
            } else if i == pos {
                assert(post[i]@ == name@ && post[j] == pre[j - 1]);
                assert(str_lt(name@, pre[j - 1]@));
            } else {
                assert(post[i] == pre[i - 1] && post[j] == pre[j - 1]);
            }
        }
        assert forall|s: Seq<char>|
            #[trigger] names_contain(post, s) <==> (names_contain(pre, s) || s == name@) by {
            if names_contain(post, s) {
                let w = choose|w: int| 0 <= w < post.len() && post[w]@ == s;
                if w < pos {
                    assert(pre[w]@ == s);
                    assert(names_contain(pre, s));
                } else if w == pos {
                    assert(s == name@);
                } else {
                    assert(pre[w - 1]@ == s);
                    assert(names_contain(pre, s));
                }
            }
            if names_contain(pre, s) {
                let w = choose|w: int| 0 <= w < pre.len() && pre[w]@ == s;
                if w < pos {
                    assert(post[w]@ == s);
                } else {
                    assert(post[w + 1]@ == s);
                }
                assert(names_contain(post, s));
            }
            if s == name@ {
                assert(post[pos as int]@ == s);
                assert(names_contain(post, s));
            }
        }
    }
}

/// Some listed artist's name equals `s`.
pub open spec fn artist_listed(items: Seq<Artist>, s: Seq<char>) -> bool {
    exists|i: int| 0 <= i < items.len() && (#[trigger] items[i].name@) == s
}

/// Some catalog track has this album name.
pub open spec fn catalog_has_album(catalog: Seq<Track>, name: Seq<char>) -> bool {
    exists|j: int| 0 <= j < catalog.len() && catalog[j].album@ == name
}

/// The whole UI state: the catalog, the derived artist and album lists,
/// the selection across the two panes, the input mode with its
/// accumulated search string, the remote client, and the cached volume.
#[derive(Debug)]
pub struct App {
    pub mode: Mode,
    pub should_quit: bool,
    pub artists: StatefulList<Artist>,
    pub albums: StatefulList<String>,
    pub tracks: Vec<usize>,
    pub search_input: String,
    pub all_tracks: Vec<Track>,
    pub current_pane: Pane,
    pub track_list_state: TableState,
    pub naim_api: Api,
    pub volume: Option<u8>,
}

impl App {
    /// The name of the selected artist.
    pub open spec fn current_artist_name(&self) -> Seq<char> {
        self.artists.items@[self.artists.state.selected->0 as int].name@
    }

    /// The standing part of the invariant: a non-empty catalog, a
    /// sorted duplicate-free artist list that holds exactly the catalog's
    /// artist names with one of them selected, a well-formed album list,
    /// and a cached volume within 0 to 100.
    pub open spec fn base_wf(&self) -> bool {
        &&& self.all_tracks@.len() > 0
        &&& self.all_tracks@.len() <= usize::MAX
        &&& self.artists.wf()
        &&& self.artists.state.selected is Some
        &&& forall|i: int, j: int|
            0 <= i < j < self.artists.items@.len() ==> str_lt(
                #[trigger] self.artists.items@[i].name@,
                #[trigger] self.artists.items@[j].name@,
            )
        &&& forall|k: int|
            0 <= k < self.artists.items@.len() ==> catalog_has_artist(
                self.all_tracks@,
                #[trigger] self.artists.items@[k].name@,
            )
        &&& forall|j: int|
            0 <= j < self.all_tracks@.len() ==> artist_listed(
                self.artists.items@,
                #[trigger] self.all_tracks@[j].artist@,
            )
        &&& self.albums.wf()
        &&& (self.volume matches Some(v) ==> v <= 100)
    }

    /// The track-pane part of the invariant: the track list is exactly
    /// the selected artist's tracks, non-empty and in bounds, and the
    /// track selection, when present, points into it.
    pub open spec fn tracks_wf(&self) -> bool {
        &&& self.tracks@ == track_indices(self.all_tracks@, self.current_artist_name())
        &&& self.tracks@.len() > 0
        &&& forall|k: int|
            0 <= k < self.tracks@.len() ==> (#[trigger] self.tracks@[k]) < self.all_tracks@.len()
        &&& (self.track_list_state.selected matches Some(j) ==> j < self.tracks@.len())
    }

    /// The whole invariant.
    pub open spec fn wf(&self) -> bool {
        self.base_wf() && self.tracks_wf()
    }

    /// Seeds the UI state from a non-empty catalog: artist and album
    /// lists sorted and deduplicated, the first artist selected with its
    /// tracks listed, no track selected, normal mode, no cached volume.
    pub fn new(naim_api: Api, tracks: Vec<Track>) -> (r: App)
        requires
            tracks@.len() > 0,
        ensures
            r.wf(),
            r.mode == Mode::Normal,
            !r.should_quit,
            r.current_pane == Pane::Artists,
            r.all_tracks == tracks,
            r.naim_api == naim_api,
            r.search_input@ == Seq::<char>::empty(),
            r.volume is None,
            r.track_list_state.selected is None,
            r.artists.state.selected == Some(0usize),
            r.tracks@ == track_indices(tracks@, r.artists.items@[0].name@),
            names_sorted(r.albums.items@),
            forall|s: Seq<char>|
                #[trigger] names_contain(r.albums.items@, s) <==> catalog_has_album(tracks@, s),
    {
        let mut names: Vec<String> = Vec::new();
        let mut i: usize = 0;
        while i < tracks.len()
            invariant
                i <= tracks@.len(),
                names_sorted(names@),
                forall|k: int|
                    0 <= k < names@.len() ==> catalog_has_artist(
                        tracks@.take(i as int),
                        #[trigger] names@[k]@,
                    ),
                forall|j: int|
                    0 <= j < i ==> names_contain(names@, #[trigger] tracks@[j].artist@),
            decreases tracks@.len() - i,
        {
            let ghost before = names@;
            insert_name(&mut names, tracks[i].artist.as_str());
            proof {
                assert forall|k: int| 0 <= k < names@.len() implies catalog_has_artist(
                    tracks@.take(i as int + 1),
                    #[trigger] names@[k]@,
                ) by {
                    assert(names_contain(names@, names@[k]@));
                    if names_contain(before, names@[k]@) {
                        let w = choose|w: int| 0 <= w < before.len() && before[w]@ == names@[k]@;
                        assert(catalog_has_artist(tracks@.take(i as int), before[w]@));
                        let j = choose|j: int|
                            0 <= j < i && tracks@.take(i as int)[j].artist@ == before[w]@;
                        assert(tracks@.take(i as int + 1)[j].artist@ == names@[k]@);
                    } else {
                        assert(names@[k]@ == tracks@[i as int].artist@);
                        assert(tracks@.take(i as int + 1)[i as int].artist@ == names@[k]@);
                    }
                }
                assert forall|j: int| 0 <= j < i + 1 implies names_contain(
                    names@,
                    #[trigger] tracks@[j].artist@,
                ) by {
                    if j < i {
                        assert(names_contain(before, tracks@[j].artist@));
                    }
                }
            }
            i += 1;
        }
        proof {
            assert(tracks@.take(tracks@.len() as int) =~= tracks@);
            assert(names_contain(names@, tracks@[0].artist@));
        }
        let mut album_names: Vec<String> = Vec::new();
        let mut a: usize = 0;
        while a < tracks.len()
            invariant
                a <= tracks@.len(),
                names_sorted(album_names@),
                forall|k: int|
                    0 <= k < album_names@.len() ==> catalog_has_album(
                        tracks@.take(a as int),
                        #[trigger] album_names@[k]@,
                    ),
                forall|j: int|
                    0 <= j < a ==> names_contain(album_names@, #[trigger] tracks@[j].album@),
            decreases tracks@.len() - a,
        {
            let ghost before = album_names@;
            insert_name(&mut album_names, tracks[a].album.as_str());
            proof {
                assert forall|k: int| 0 <= k < album_names@.len() implies catalog_has_album(
                    tracks@.take(a as int + 1),
                    #[trigger] album_names@[k]@,
                ) by {
                    assert(names_contain(album_names@, album_names@[k]@));
                    if names_contain(before, album_names@[k]@) {
                        let w = choose|w: int|
                            0 <= w < before.len() && before[w]@ == album_names@[k]@;
                        assert(catalog_has_album(tracks@.take(a as int), before[w]@));
                        let j = choose|j: int|
                            0 <= j < a && tracks@.take(a as int)[j].album@ == before[w]@;
                        assert(tracks@.take(a as int + 1)[j].album@ == album_names@[k]@);
                    } else {
                        assert(album_names@[k]@ == tracks@[a as int].album@);
                        assert(tracks@.take(a as int + 1)[a as int].album@ == album_names@[k]@);
                    }
                }
                assert forall|j: int| 0 <= j < a + 1 implies names_contain(
                    album_names@,
                    #[trigger] tracks@[j].album@,
                ) by {
                    if j < a {
                        assert(names_contain(before, tracks@[j].album@));
                    }
                }
            }
            a += 1;
        }
        proof {
            assert(tracks@.take(tracks@.len() as int) =~= tracks@);
            assert(names_contain(album_names@, tracks@[0].album@));
        }
        let mut artist_items: Vec<Artist> = Vec::new();
        let mut k: usize = 0;
        while k < names.len()
            invariant
                k <= names@.len(),
                artist_items@.len() == k as int,
                forall|t: int|
                    0 <= t < k ==> (#[trigger] artist_items@[t].name@) == names@[t]@,
            decreases names@.len() - k,
        {
            let nm = names[k].clone();
            artist_items.push(Artist { name: nm });
            k += 1;
        }
        let first_name = artist_items[0].name.clone();
        proof {
            assert(catalog_has_artist(tracks@, first_name@)) by {
                assert(names@[0]@ == first_name@);
            }
            lemma_track_indices(tracks@, first_name@);
            lemma_track_indices_nonempty(tracks@, first_name@);
        }
        let current_tracks = compute_tracks(&tracks, &first_name);
        let r = App {
            mode: Mode::Normal,
            should_quit: false,
            artists: StatefulList::with_items(artist_items),
            albums: StatefulList::with_items(album_names),
            tracks: current_tracks,
            search_input: String::new(),
            all_tracks: tracks,
            current_pane: Pane::Artists,
            track_list_state: TableState::default(),
            naim_api,
            volume: None,
        };
        proof {
            assert forall|i2: int, j2: int|
                0 <= i2 < j2 < r.artists.items@.len() implies str_lt(
                #[trigger] r.artists.items@[i2].name@,
                #[trigger] r.artists.items@[j2].name@,
            ) by {
                assert(r.artists.items@[i2].name@ == names@[i2]@);
                assert(r.artists.items@[j2].name@ == names@[j2]@);
            }
            assert forall|k2: int| 0 <= k2 < r.artists.items@.len() implies catalog_has_artist(
                r.all_tracks@,
                #[trigger] r.artists.items@[k2].name@,
            ) by {
                assert(r.artists.items@[k2].name@ == names@[k2]@);
            }
            assert forall|j2: int| 0 <= j2 < r.all_tracks@.len() implies artist_listed(
                r.artists.items@,
                #[trigger] r.all_tracks@[j2].artist@,
            ) by {
                assert(names_contain(names@, r.all_tracks@[j2].artist@));
                let w = choose|w: int|
                    0 <= w < names@.len() && names@[w]@ == r.all_tracks@[j2].artist@;
                assert(r.artists.items@[w].name@ == r.all_tracks@[j2].artist@);
            }
            assert(r.current_artist_name() == first_name@);
        }
        r
    }

    /// Recomputes the track list for the selected artist and clears the
    /// track selection; does nothing while the tracks pane is active.
    fn set_tracks(&mut self)
        requires
            old(self).base_wf(),
        ensures
            final(self).base_wf(),
            old(self).current_pane == Pane::Tracks ==> *final(self) == *old(self),
            old(self).current_pane != Pane::Tracks ==> {
                &&& *final(self) == (App {
                    tracks: final(self).tracks,
                    track_list_state: TableState { selected: None },
                    ..*old(self)
                })
                &&& final(self).tracks@ == track_indices(
                    old(self).all_tracks@,
                    old(self).current_artist_name(),
                )
                &&& final(self).tracks_wf()
            },
    {
        match self.current_pane {
            Pane::Tracks => {},
            Pane::Artists => {
                let idx: usize = match self.artists.state.selected() {
                    Some(i) => i,
                    None => 0,
                };
                let name = self.artists.items[idx].name.clone();
                proof {
                    assert(catalog_has_artist(self.all_tracks@, name@));
                    lemma_track_indices(self.all_tracks@, name@);
                    lemma_track_indices_nonempty(self.all_tracks@, name@);
                }
                let new_tracks = compute_tracks(&self.all_tracks, &name);
                self.tracks = new_tracks;
                self.track_list_state.select(None);
            },
        }
    }

    /// Advances the track selection one row down, with wraparound; with
    /// no selection the first row is selected.
    fn select_next_track(&mut self)
        requires
            old(self).wf(),
        ensures
            final(self).wf(),
            *final(self) == (App {
                track_list_state: TableState {
                    selected: Some(
                        wrap_next(
                            old(self).track_list_state.selected,
                            1,
                            old(self).tracks@.len() as int,
                        ) as usize,
                    ),
                },
                ..*old(self)
            }),
    {
        let len = self.tracks.len();
        let ns: usize = match self.track_list_state.selected() {
            Some(pos) => if pos == len - 1 {
                0
            } else {
                pos + 1
            },
            None => 0,
        };
        self.track_list_state.select(Some(ns));
    }

    /// Moves up one step: in the artists pane the artist selection, with
    /// the track list recomputed and its selection cleared; in the
    /// tracks pane the track selection, with wraparound.
    pub fn on_up(&mut self)
        requires
            old(self).wf(),
        ensures
            final(self).wf(),
            old(self).current_pane == Pane::Artists ==> {
                &&& *final(self) == (App {
                    artists: StatefulList {
                        state: ListState {
                            selected: Some(
                                wrap_prev(
                                    old(self).artists.state.selected,
                                    1,
                                    old(self).artists.items@.len() as int,
                                ) as usize,
                            ),
                        },
                        items: old(self).artists.items,
                    },
                    tracks: final(self).tracks,
                    track_list_state: TableState { selected: None },
                    ..*old(self)
                })
                &&& final(self).tracks@ == track_indices(
                    old(self).all_tracks@,
                    final(self).current_artist_name(),
                )
            },
            old(self).current_pane == Pane::Tracks ==> *final(self) == (App {
                track_list_state: TableState {
                    selected: Some(
                        wrap_prev(
                            old(self).track_list_state.selected,
                            1,
                            old(self).tracks@.len() as int,
                        ) as usize,
                    ),
                },
                ..*old(self)
            }),
    {
        match self.current_pane {
            Pane::Artists => {
                self.artists.previous(1);
                self.set_tracks();
            },
            Pane::Tracks => {
                let len = self.tracks.len();
                let ns: usize = match self.track_list_state.selected() {
                    Some(pos) => if pos == 0 {
                        len - 1
                    } else {
                        pos - 1
                    },
                    None => 0,
                };
                self.track_list_state.select(Some(ns));
            },
        }
    }

    /// Moves down one step, as `on_up` does in the other direction.
    pub fn on_down(&mut self)
        requires
            old(self).wf(),
        ensures
            final(self).wf(),
            old(self).current_pane == Pane::Artists ==> {
                &&& *final(self) == (App {
                    artists: StatefulList {
                        state: ListState {
                            selected: Some(
                                wrap_next(
                                    old(self).artists.state.selected,
                                    1,
                                    old(self).artists.items@.len() as int,
                                ) as usize,
                            ),
                        },
                        items: old(self).artists.items,
                    },
                    tracks: final(self).tracks,
                    track_list_state: TableState { selected: None },
                    ..*old(self)
                })
                &&& final(self).tracks@ == track_indices(
                    old(self).all_tracks@,
                    final(self).current_artist_name(),
                )
            },
            old(self).current_pane == Pane::Tracks ==> *final(self) == (App {
                track_list_state: TableState {
                    selected: Some(
                        wrap_next(
                            old(self).track_list_state.selected,
                            1,
                            old(self).tracks@.len() as int,
                        ) as usize,
                    ),
                },
                ..*old(self)
            }),
    {
        match self.current_pane {
            Pane::Artists => {
                self.artists.next(1);
                self.set_tracks();
            },
            Pane::Tracks => {
                self.select_next_track();
            },
        }
    }

    /// Moves the artist selection ten steps up and recomputes the track
    /// list; defined only while the artists pane is active, elsewhere a
    /// no-op.
    pub fn on_page_up(&mut self)
        requires
            old(self).wf(),
        ensures
            final(self).wf(),
            old(self).current_pane == Pane::Artists ==> {
                &&& *final(self) == (App {
                    artists: StatefulList {
                        state: ListState {
                            selected: Some(
                                wrap_prev(
                                    old(self).artists.state.selected,
                                    10,
                                    old(self).artists.items@.len() as int,
                                ) as usize,
                            ),
                        },
                        items: old(self).artists.items,
                    },
                    tracks: final(self).tracks,
                    track_list_state: TableState { selected: None },
                    ..*old(self)
                })
                &&& final(self).tracks@ == track_indices(
                    old(self).all_tracks@,
                    final(self).current_artist_name(),
                )
            },
            old(self).current_pane == Pane::Tracks ==> *final(self) == *old(self),
    {
        match self.current_pane {
            Pane::Artists => {
                self.artists.previous(10);
                self.set_tracks();
            },
            Pane::Tracks => {},
        }
    }

    /// Moves the artist selection ten steps down, as `on_page_up` does
    /// in the other direction.
    pub fn on_page_down(&mut self)
        requires
            old(self).wf(),
        ensures
            final(self).wf(),
            old(self).current_pane == Pane::Artists ==> {
                &&& *final(self) == (App {
                    artists: StatefulList {
                        state: ListState {
                            selected: Some(
                                wrap_next(
                                    old(self).artists.state.selected,
                                    10,
                                    old(self).artists.items@.len() as int,
                                ) as usize,
                            ),
                        },
                        items: old(self).artists.items,
                    },
                    tracks: final(self).tracks,
                    track_list_state: TableState { selected: None },
                    ..*old(self)
                })
                &&& final(self).tracks@ == track_indices(
                    old(self).all_tracks@,
                    final(self).current_artist_name(),
                )
            },
            old(self).current_pane == Pane::Tracks ==> *final(self) == *old(self),
    {
        match self.current_pane {
            Pane::Artists => {
                self.artists.next(10);
                self.set_tracks();
            },
            Pane::Tracks => {},
        }
    }

    /// In search-input mode removes the last accumulated character;
    /// in normal mode a no-op.
    pub fn on_backspace(&mut self)
        requires
            old(self).wf(),
        ensures
            final(self).wf(),
            old(self).mode == Mode::SearchInput ==> {
                &&& *final(self) == (App {
                    search_input: final(self).search_input,
                    ..*old(self)
                })
                &&& final(self).search_input@ == (if old(self).search_input@.len() > 0 {
                    old(self).search_input@.drop_last()
                } else {
                    old(self).search_input@
                })
            },
            old(self).mode == Mode::Normal ==> *final(self) == *old(self),
    {
        match self.mode {
            Mode::SearchInput => {
                let _popped = pop_char(&mut self.search_input);
            },
            Mode::Normal => {},
        }
    }

    /// The selected track, when the track selection points at one.
    fn current_track(&self) -> (r: Option<&Track>)
        requires
            self.wf(),
        ensures
            match self.track_list_state.selected {
                Option::None => r is None,
                Option::Some(j) => r matches Some(t) && *t == self.all_tracks@[self.tracks@[
                    j as int] as int],
            },
    {
        match self.track_list_state.selected() {
            Some(i) => {
                let ti = self.tracks[i];
                Some(&self.all_tracks[ti])
            },
            None => None,
        }
    }

    /// Stores the outcome of a volume step as the new cached volume.
    pub fn apply_volume(&mut self, v: Option<u8>)
        requires
            old(self).wf(),
            v matches Some(x) ==> x <= 100,
        ensures
            final(self).wf(),
            *final(self) == (App { volume: v, ..*old(self) }),
    {
        self.volume = v;
    }

    /// The hook run when a search commits. No matching rule is defined
    /// yet, so the state is left unchanged.
    fn next_search_match(&mut self)
        ensures
            *final(self) == *old(self),
    {
    }

    /// The periodic tick; nothing changes.
    pub fn on_tick(&mut self)
        ensures
            *final(self) == *old(self),
    {
    }

    /// Dispatches one character of key input. In normal mode: `q`
    /// requests quit; tab switches pane; enter enqueues the selected
    /// track and advances the selection; `p`, space, `+`, `-`, `P`,
    /// `S`, `C` are remote-control commands; `/` opens search input;
    /// anything else is ignored. In search-input mode characters
    /// accumulate, and newline commits and returns to normal mode.
    pub fn on_key(&mut self, c: char) -> (r: Action)
        requires
            old(self).wf(),
        ensures
            final(self).wf(),
            old(self).mode == Mode::Normal ==> {
                &&& c == 'q' ==> (*final(self) == (App { should_quit: true, ..*old(self) })
                    && r is Nothing)
                &&& c == '\t' ==> ((match old(self).current_pane {
                    Pane::Artists => *final(self) == (App {
                        current_pane: Pane::Tracks,
                        track_list_state: TableState {
                            selected: if old(self).track_list_state.selected is None {
                                Some(0usize)
                            } else {
                                old(self).track_list_state.selected
                            },
                        },
                        ..*old(self)
                    }),
                    Pane::Tracks => *final(self) == (App {
                        current_pane: Pane::Artists,
                        track_list_state: TableState { selected: None },
                        ..*old(self)
                    }),
                }) && r is Nothing)
                &&& c == '\n' ==> (match old(self).track_list_state.selected {
                    Option::None => *final(self) == *old(self) && r is Nothing,
                    Option::Some(j) => {
                        &&& *final(self) == (App {
                            track_list_state: TableState {
                                selected: Some(
                                    wrap_next(Some(j), 1, old(self).tracks@.len() as int) as usize,
                                ),
                            },
                            ..*old(self)
                        })
                        &&& r matches Action::Send(req) && ({
                            &&& req.method == crate::api::Method::Post
                            &&& req.url@ == old(self).naim_api.url@
                                + "/inputs/playqueue?where=end&clear=false"@
                            &&& req.body matches Some(p) && crate::api::playlist_track_for(
                                p,
                                old(self).naim_api.src_url@,
                                old(self).all_tracks@[old(self).tracks@[j as int] as int],
                            )
                        })
                    },
                })
                &&& c == 'p' ==> (*final(self) == *old(self) && r is Play)
                &&& c == ' ' ==> (*final(self) == *old(self) && (r matches Action::Send(req)
                    && req.method == crate::api::Method::Get && req.url@
                    == old(self).naim_api.url@ + "/nowplaying?cmd=playpause"@
                    && req.body is None))
                &&& c == '+' ==> (*final(self) == *old(self) && r is VolumeUp)
                &&& c == '-' ==> (*final(self) == *old(self) && r is VolumeDown)
                &&& c == 'P' ==> (*final(self) == *old(self) && (r matches Action::Send(req)
                    && req.method == crate::api::Method::Put && req.url@
                    == old(self).naim_api.url@ + "/power?system=on"@ && req.body is None))
                &&& c == 'S' ==> (*final(self) == *old(self) && (r matches Action::Send(req)
                    && req.method == crate::api::Method::Put && req.url@
                    == old(self).naim_api.url@ + "/power?system=lona"@ && req.body is None))
                &&& c == 'C' ==> (*final(self) == *old(self) && (r matches Action::Send(req)
                    && req.method == crate::api::Method::Post && req.url@
                    == old(self).naim_api.url@ + "/inputs/playqueue?clear=true"@
                    && req.body is None))
                &&& c == '/' ==> (*final(self) == (App { mode: Mode::SearchInput, ..*old(self) })
                    && r is Nothing)
                &&& !normal_key_handled(c) ==> (*final(self) == *old(self) && r is Nothing)
            },
            old(self).mode == Mode::SearchInput ==> {
                &&& c == '\n' ==> (*final(self) == (App { mode: Mode::Normal, ..*old(self) })
                    && r is Nothing)
                &&& c != '\n' ==> ((*final(self) == (App {
                    search_input: final(self).search_input,
                    ..*old(self)
                })) && final(self).search_input@ == old(self).search_input@.push(c)
                    && r is Nothing)
            },
    {
        match self.mode {
            Mode::Normal => match c {
                'q' => {
                    self.should_quit = true;
                    Action::Nothing
                },
                '\t' => {
                    match self.current_pane {
                        Pane::Artists => {
                            if self.track_list_state.selected().is_none() {
                                self.track_list_state.select(Some(0));
                            }
                            self.current_pane = Pane::Tracks;
                        },
                        Pane::Tracks => {
                            self.track_list_state.select(None);
                            self.current_pane = Pane::Artists;
                        },
                    }
                    Action::Nothing
                },
                '\n' => {
                    let req_opt = match self.current_track() {
                        Some(track) => Some(self.naim_api.queue_track(track)),
                        None => None,
                    };
                    match req_opt {
                        Some(req) => {
                            self.select_next_track();
                            Action::Send(req)
                        },
                        None => Action::Nothing,
                    }
                },
                'p' => Action::Play,
                ' ' => Action::Send(self.naim_api.toggle_play_pause()),
                '+' => Action::VolumeUp,
                '-' => Action::VolumeDown,
                'P' => Action::Send(self.naim_api.power_on()),
                'S' => Action::Send(self.naim_api.suspend()),
                'C' => Action::Send(self.naim_api.clear_playlist()),
                '/' => {
                    self.mode = Mode::SearchInput;
                    Action::Nothing
                },
                _ => Action::Nothing,
            },
            Mode::SearchInput => {
                if c == '\n' {
                    self.mode = Mode::Normal;
                    self.next_search_match();
                } else {
                    push_char(&mut self.search_input, c);
                }
                Action::Nothing
            },
        }
    }
}

/// The characters normal mode reacts to.
pub open spec fn normal_key_handled(c: char) -> bool {
    ||| c == 'q'
    ||| c == '\t'
    ||| c == '\n'
    ||| c == 'p'
    ||| c == ' '
    ||| c == '+'
    ||| c == '-'
    ||| c == 'P'
    ||| c == 'S'
    ||| c == 'C'
    ||| c == '/'
}

} // verus!
