//! The records that name what to download.

use crate::text::{is_blank, trim};
use vstd::prelude::*;
use vstd::string::*;

verus! {

/// One row of the playlist: a track, its artist and its album.
#[derive(Debug)]
pub struct TrackRecord {
    pub track_name: String,
    pub artist_name: String,
    pub album_name: String,
}

/// A record as three character sequences.
pub ghost struct RecordView {
    pub track: Seq<char>,
    pub artist: Seq<char>,
    pub album: Seq<char>,
}

impl View for TrackRecord {
    type V = RecordView;

    open spec fn view(&self) -> RecordView {
        RecordView { track: self.track_name@, artist: self.artist_name@, album: self.album_name@ }
    }
}

impl Clone for TrackRecord {
    fn clone(&self) -> (r: Self)
        ensures
            r@ == self@,
    {
        TrackRecord {
            track_name: self.track_name.clone(),
            artist_name: self.artist_name.clone(),
            album_name: self.album_name.clone(),
        }
    }
}

impl RecordView {
    /// A record is dispatched only if track and artist both hold something
    /// other than whitespace.
    pub open spec fn dispatchable(self) -> bool {
        !is_blank(self.track) && !is_blank(self.artist)
    }

    /// `<artist> - <track>`, the label of the record's progress display.
    pub open spec fn label(self) -> Seq<char> {
        self.artist + " - "@ + self.track
    }
}

impl TrackRecord {
    pub fn new(track_name: &str, artist_name: &str, album_name: &str) -> (r: TrackRecord)
        ensures
            r@ == (RecordView { track: track_name@, artist: artist_name@, album: album_name@ }),
    {
        TrackRecord {
            track_name: String::from_str(track_name),
            artist_name: String::from_str(artist_name),
            album_name: String::from_str(album_name),
        }
    }

    /// Whether the record may be dispatched at all.
    pub fn is_dispatchable(&self) -> (b: bool)
        ensures
            b == self@.dispatchable(),
    {
        !trim(self.track_name.as_str()).is_empty() && !trim(self.artist_name.as_str()).is_empty()
    }

    /// The label under which the record's progress is shown.
    pub fn label(&self) -> (r: String)
        ensures
            r@ == self@.label(),
    {
        let mut r = self.artist_name.clone();
        r.append(" - ");
        r.append(self.track_name.as_str());
        r
    }
}

/// The rows that were read well, in their order.
pub open spec fn well_formed_rows(rows: Seq<Option<TrackRecord>>) -> Seq<RecordView>
    decreases rows.len(),
{
    if rows.len() == 0 {
        Seq::empty()
    } else {
        let before = well_formed_rows(rows.drop_last());
        match rows.last() {
            Some(record) => before.push(record@),
            None => before,
        }
    }
}

/// The records as their views.
pub open spec fn record_views(records: Seq<TrackRecord>) -> Seq<RecordView> {
    records.map_values(|r: TrackRecord| r@)
}

/// Builds the playlist from the rows of the record source: a row that could
/// not be read (`None`) is left out, the others keep their order.
pub fn load_playlists(rows: Vec<Option<TrackRecord>>) -> (records: Vec<TrackRecord>)
    ensures
        record_views(records@) == well_formed_rows(rows@),
{
    let mut records: Vec<TrackRecord> = Vec::new();
    let ghost all = rows@;
    let mut i: usize = 0;
    let n: usize = rows.len();
    assert(all.subrange(0, 0) =~= Seq::<Option<TrackRecord>>::empty());
    while i < n
        invariant
            i <= n,
            n == rows@.len(),
            rows@ == all,
            record_views(records@) == well_formed_rows(all.subrange(0, i as int)),
        decreases n - i,
    {
        proof {
            let upto = all.subrange(0, i + 1);
            assert(upto.drop_last() =~= all.subrange(0, i as int));
            assert(upto.last() == all[i as int]);
        }
        match &rows[i] {
            Some(record) => {
                let ghost before = records@;
                records.push(record.clone());
                assert(record_views(records@) =~= record_views(before).push(record@));
            },
            None => {},
        }
        i += 1;
    }
    assert(all.subrange(0, n as int) =~= all);
    records
}

} // verus!
