//! The persisted device settings and the decisions made on them.

use vstd::prelude::*;

verus! {

/// Settings held in memory by the lifecycle controller.
///
/// `background_gif` is the image received during provisioning together with
/// a flag telling whether it was updated since boot.
pub struct Settings {
    pub ssid: String,
    pub pass: String,
    pub server_url: String,
    pub background_gif: (Vec<u8>, bool),
}

impl Settings {
    /// True when the WiFi credentials and the server address are all present,
    /// which is what leaving provisioning mode requires.
    pub open spec fn spec_is_complete(&self) -> bool {
        &&& self.ssid@.len() > 0
        &&& self.pass@.len() > 0
        &&& self.server_url@.len() > 0
    }

    /// Builds the in-memory settings from the three stored strings, with no
    /// background image pending.
    pub fn new(ssid: String, pass: String, server_url: String) -> (r: Settings)
        ensures
            r.ssid@ == ssid@,
            r.pass@ == pass@,
            r.server_url@ == server_url@,
            r.background_gif.0@.len() == 0,
            !r.background_gif.1,
    {
        Settings { ssid, pass, server_url, background_gif: (Vec::new(), false) }
    }

    #[verifier::when_used_as_spec(spec_is_complete)]
    pub fn is_complete(&self) -> (r: bool)
        ensures
            r == self.spec_is_complete(),
    {
        !self.ssid.as_str().is_empty() && !self.pass.as_str().is_empty()
            && !self.server_url.as_str().is_empty()
    }

    /// Records a background image received during provisioning and flags it
    /// as updated.
    pub fn set_background(&mut self, data: Vec<u8>)
        ensures
            final(self).background_gif.0@ == data@,
            final(self).background_gif.1,
            final(self).ssid == old(self).ssid,
            final(self).pass == old(self).pass,
            final(self).server_url == old(self).server_url,
    {
        self.background_gif = (data, true);
    }

    /// Moves out the background image to persist: present when it was
    /// flagged updated and is not empty. When flagged, the in-memory copy is
    /// handed over and left empty.
    pub fn take_background_update(&mut self) -> (r: Option<Vec<u8>>)
        ensures
            r is Some <==> old(self).background_gif.1 && old(self).background_gif.0@.len() > 0,
            r matches Some(b) ==> b@ == old(self).background_gif.0@,
            final(self).background_gif.1 == old(self).background_gif.1,
            old(self).background_gif.1 ==> final(self).background_gif.0@.len() == 0,
            !old(self).background_gif.1 ==> final(self).background_gif.0@
                == old(self).background_gif.0@,
            final(self).ssid == old(self).ssid,
            final(self).pass == old(self).pass,
            final(self).server_url == old(self).server_url,
    {
        if self.background_gif.1 {
            let mut data: Vec<u8> = Vec::new();
            std::mem::swap(&mut self.background_gif.0, &mut data);
            if data.len() > 0 {
                Some(data)
            } else {
                None
            }
        } else {
            None
        }
    }
}

/// The persisted entries as the settings store holds them; an entry that is
/// missing or could not be read is `None`.
pub struct StoredSettings {
    pub ssid: Option<String>,
    pub pass: Option<String>,
    pub server_url: Option<String>,
    pub background_gif: Option<Vec<u8>>,
}

/// The abstract content of the store: the three strings and the image.
pub type StoredView = (Option<Seq<char>>, Option<Seq<char>>, Option<Seq<char>>, Option<Seq<u8>>);

pub open spec fn string_entry_view(e: Option<String>) -> Option<Seq<char>> {
    match e {
        Some(s) => Some(s@),
        None => None,
    }
}

pub open spec fn blob_entry_view(e: Option<Vec<u8>>) -> Option<Seq<u8>> {
    match e {
        Some(b) => Some(b@),
        None => None,
    }
}

impl View for StoredSettings {
    type V = StoredView;

    open spec fn view(&self) -> StoredView {
        (
            string_entry_view(self.ssid),
            string_entry_view(self.pass),
            string_entry_view(self.server_url),
            blob_entry_view(self.background_gif),
        )
    }
}

/// A stored string entry as the settings read it: missing reads as empty.
pub open spec fn entry_or_empty(e: Option<Seq<char>>) -> Seq<char> {
    match e {
        Some(s) => s,
        None => Seq::empty(),
    }
}

/// The store after the end of provisioning: the image replaces the stored one
/// when it was flagged updated and is not empty; nothing else changes.
pub open spec fn persist_model(stored: StoredView, image: Seq<u8>, updated: bool) -> StoredView {
    if updated && image.len() > 0 {
        (stored.0, stored.1, stored.2, Some(image))
    } else {
        stored
    }
}

fn entry_or_empty_exec(e: &Option<String>) -> (r: String)
    ensures
        r@ == entry_or_empty(string_entry_view(*e)),
{
    match e {
        Some(s) => s.clone(),
        None => String::new(),
    }
}

/// The settings of this boot, read from the store, with no image pending.
pub fn load_settings(stored: &StoredSettings) -> (r: Settings)
    ensures
        r.ssid@ == entry_or_empty(stored@.0),
        r.pass@ == entry_or_empty(stored@.1),
        r.server_url@ == entry_or_empty(stored@.2),
        r.background_gif.0@.len() == 0,
        !r.background_gif.1,
{
    Settings::new(
        entry_or_empty_exec(&stored.ssid),
        entry_or_empty_exec(&stored.pass),
        entry_or_empty_exec(&stored.server_url),
    )
}

/// Ends provisioning: moves an updated background image into the store.
/// Returns whether the store's image entry changed and must be written out.
pub fn persist_background(settings: &mut Settings, stored: &mut StoredSettings) -> (r: bool)
    ensures
        final(stored)@ == persist_model(
            old(stored)@,
            old(settings).background_gif.0@,
            old(settings).background_gif.1,
        ),
        r == (old(settings).background_gif.1 && old(settings).background_gif.0@.len() > 0),
{
    match settings.take_background_update() {
        Some(data) => {
            stored.background_gif = Some(data);
            true
        },
        None => false,
    }
}

/// An image written during provisioning with its updated flag set is, once
/// persisted, exactly what the store's image entry reads back; the other
/// entries are untouched.
pub proof fn lemma_background_round_trip(stored: StoredView, image: Seq<u8>)
    requires
        image.len() > 0,
    ensures
        persist_model(stored, image, true).3 == Some(image),
        persist_model(stored, image, true).0 == stored.0,
        persist_model(stored, image, true).1 == stored.1,
        persist_model(stored, image, true).2 == stored.2,
{
}

} // verus!
