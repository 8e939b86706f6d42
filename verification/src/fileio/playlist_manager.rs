//! Playlists.

use crate::ident::{fresh_id, is_uuid_text};
use vstd::prelude::*;
use vstd::string::StringExecFns;

verus! {

/// One entry of a playlist.
#[derive(Debug)]
pub struct PlaylistItem {
    pub id: String,
    pub path: String,
    pub title: String,
    pub duration_ms: u64,
}

impl Clone for PlaylistItem {
    fn clone(&self) -> (copy: Self)
        ensures
            copy == *self,
    {
        PlaylistItem {
            id: self.id.clone(),
            path: self.path.clone(),
            title: self.title.clone(),
            duration_ms: self.duration_ms,
        }
    }
}

/// A named list of items, one of which may be the current one.
#[derive(Debug)]
pub struct Playlist {
    pub id: String,
    pub name: String,
    pub items: Vec<PlaylistItem>,
    pub current_index: Option<usize>,
}

impl Playlist {
    /// An empty playlist called `name` with the identifier `id`.
    pub fn with_id(id: String, name: String) -> (playlist: Self)
        ensures
            playlist.id == id,
            playlist.name == name,
            playlist.items@.len() == 0,
            playlist.current_index is None,
    {
        Playlist { id, name, items: Vec::new(), current_index: None }
    }

    /// An empty playlist called `name`, with a fresh identifier.
    pub fn new(name: String) -> (playlist: Self)
        ensures
            playlist.name == name,
            playlist.items@.len() == 0,
            playlist.current_index is None,
            is_uuid_text(playlist.id@),
    {
        Self::with_id(fresh_id(), name)
    }

    /// Appends `item`.
    pub fn add_item(&mut self, item: PlaylistItem)
        ensures
            final(self).items@ == old(self).items@.push(item),
            final(self).id == old(self).id,
            final(self).name == old(self).name,
            final(self).current_index == old(self).current_index,
    {
        self.items.push(item);
    }

    /// Removes and returns the item at `index`, if there is one; the items
    /// behind it move up.
    pub fn remove_item(&mut self, index: usize) -> (removed: Option<PlaylistItem>)
        ensures
            final(self).id == old(self).id,
            final(self).name == old(self).name,
            final(self).current_index == old(self).current_index,
            index < old(self).items@.len() ==> removed == Some(old(self).items@[index as int])
                && final(self).items@ == old(self).items@.remove(index as int),
            index >= old(self).items@.len() ==> removed is None && final(self).items@ == old(
                self,
            ).items@,
    {
        if index < self.items.len() {
            Some(self.items.remove(index))
        } else {
            None
        }
    }

    /// The current item, if there is a current index and it names an item.
    pub fn current_item(&self) -> (item: Option<&PlaylistItem>)
        ensures
            match self.current_index {
                Some(i) if i < self.items@.len() => item == Some(&self.items@[i as int]),
                _ => item is None,
            },
    {
        match self.current_index {
            Some(i) => if i < self.items.len() {
                Some(&self.items[i])
            } else {
                None
            },
            None => None,
        }
    }
}

/// The playlists of an application, in the order in which they were made.
pub struct PlaylistManager {
    playlists: Vec<Playlist>,
}

/// The index of the first playlist whose identifier is `id`.
pub open spec fn playlist_index(playlists: Seq<Playlist>, id: Seq<char>) -> Option<int>
    decreases playlists.len(),
{
    if playlists.len() == 0 {
        None
    } else if playlists[0].id@ == id {
        Some(0)
    } else {
        match playlist_index(playlists.drop_first(), id) {
            Some(i) => Some(i + 1),
            None => None,
        }
    }
}

impl View for PlaylistManager {
    type V = Seq<Playlist>;

    closed spec fn view(&self) -> Seq<Playlist> {
        self.playlists@
    }
}

impl PlaylistManager {
    pub fn new() -> (manager: Self)
        ensures
            manager@.len() == 0,
    {
        PlaylistManager { playlists: Vec::new() }
    }

    /// A manager of the playlists `playlists`.
    pub fn from_playlists(playlists: Vec<Playlist>) -> (manager: Self)
        ensures
            manager@ == playlists@,
    {
        PlaylistManager { playlists }
    }

    /// The playlists, in order.
    pub fn playlists(&self) -> (playlists: &Vec<Playlist>)
        ensures
            playlists@ == self@,
    {
        &self.playlists
    }

    /// Appends an empty playlist called `name` and returns its identifier.
    pub fn create_playlist(&mut self, name: String) -> (id: String)
        ensures
            final(self)@.len() == old(self)@.len() + 1,
            final(self)@.drop_last() == old(self)@,
            final(self)@.last().id == id,
            final(self)@.last().name == name,
            final(self)@.last().items@.len() == 0,
            final(self)@.last().current_index is None,
            is_uuid_text(id@),
    {
        let playlist = Playlist::new(name);
        let id = playlist.id.clone();
        self.playlists.push(playlist);
        assert(self.playlists@.drop_last() =~= old(self)@);
        id
    }

    /// The first playlist whose identifier is `id`.
    pub fn get_playlist(&self, id: &str) -> (found: Option<&Playlist>)
        ensures
            match playlist_index(self@, id@) {
                Some(i) => 0 <= i < self@.len() && found == Some(&self@[i]),
                None => found is None,
            },
    {
        let key = String::from_str(id);
        let mut i: usize = 0;
        assert(self@.skip(0) =~= self@);
        while i < self.playlists.len()
            invariant
                i <= self@.len(),
                key@ == id@,
                playlist_index(self@, id@) == match playlist_index(self@.skip(i as int), id@) {
                    Some(k) => Some(k + i),
                    None => None,
                },
            decreases self@.len() - i,
        {
            assert(self@.skip(i as int).drop_first() =~= self@.skip(i + 1));
            if self.playlists[i].id == key {
                return Some(&self.playlists[i]);
            }
            i += 1;
        }
        None
    }
}

} // verus!
