//! Where the parts of a database live below its root directory.

use vstd::prelude::*;

verus! {

/// Name of the coordination file, directly below the root.
pub const LOCK_FILE_NAME: &'static str = ".minidb-lock";

/// Name of the metadata file, directly below the root.
pub const METADATA_FILE_NAME: &'static str = "metadata";

/// A place in the database directory, relative to the root.
#[derive(Debug, PartialEq, Eq)]
pub enum Location {
    /// The root directory itself.
    Root,
    /// The coordination file.
    LockFile,
    /// The metadata file.
    Metadata,
    /// The directory of the table with this name.
    TableDir(String),
    /// The file of one record: table name, then identifier.
    Record(String, String),
}

/// What a [`Location`] is in contracts.
pub enum LocationView {
    Root,
    LockFile,
    Metadata,
    TableDir(Seq<char>),
    Record(Seq<char>, Seq<char>),
}

impl View for Location {
    type V = LocationView;

    open spec fn view(&self) -> LocationView {
        match self {
            Location::Root => LocationView::Root,
            Location::LockFile => LocationView::LockFile,
            Location::Metadata => LocationView::Metadata,
            Location::TableDir(table) => LocationView::TableDir(table@),
            Location::Record(table, id) => LocationView::Record(table@, id@),
        }
    }
}

impl Clone for Location {
    fn clone(&self) -> (res: Self)
        ensures
            res@ == self@,
    {
        match self {
            Location::Root => Location::Root,
            Location::LockFile => Location::LockFile,
            Location::Metadata => Location::Metadata,
            Location::TableDir(table) => Location::TableDir(table.clone()),
            Location::Record(table, id) => Location::Record(table.clone(), id.clone()),
        }
    }
}

impl LocationView {
    /// The path segments that lead from the root to this place:
    /// none for the root, one for the two fixed files and for a table
    /// directory, and the table's name followed by the identifier for a record.
    pub open spec fn segments(self) -> Seq<Seq<char>> {
        match self {
            LocationView::Root => seq![],
            LocationView::LockFile => seq![LOCK_FILE_NAME@],
            LocationView::Metadata => seq![METADATA_FILE_NAME@],
            LocationView::TableDir(table) => seq![table],
            LocationView::Record(table, id) => seq![table, id],
        }
    }
}

impl LocationView {
    /// The place that `segments` lead to: the inverse of
    /// [`LocationView::segments`]. A single segment is one of the two fixed
    /// files where it has that file's name, and a table's directory
    /// otherwise; more than two segments lead nowhere.
    pub open spec fn from_segments(segments: Seq<Seq<char>>) -> Option<LocationView> {
        if segments.len() == 0 {
            Some(LocationView::Root)
        } else if segments.len() == 1 {
            if segments[0] == LOCK_FILE_NAME@ {
                Some(LocationView::LockFile)
            } else if segments[0] == METADATA_FILE_NAME@ {
                Some(LocationView::Metadata)
            } else {
                Some(LocationView::TableDir(segments[0]))
            }
        } else if segments.len() == 2 {
            Some(LocationView::Record(segments[0], segments[1]))
        } else {
            None
        }
    }

    /// Whether the place has a path of its own: every place has, but for the
    /// directory of a table that is named like one of the two fixed files.
    pub open spec fn is_distinct(self) -> bool {
        self matches LocationView::TableDir(table) ==> table != LOCK_FILE_NAME@ && table
            != METADATA_FILE_NAME@
    }
}

/// The layout can be read back: the segments of a place lead to that place,
/// unless it is the directory of a table that is named like one of the two
/// fixed files. So two such places with the same segments are the same place.
pub proof fn law_layout_is_one_to_one(place: LocationView)
    requires
        place.is_distinct(),
    ensures
        LocationView::from_segments(place.segments()) == Some(place),
{
    reveal_strlit(".minidb-lock");
    reveal_strlit("metadata");
    assert(LOCK_FILE_NAME@ != METADATA_FILE_NAME@) by {
        assert(LOCK_FILE_NAME@.len() == 12);
        assert(METADATA_FILE_NAME@.len() == 8);
    }
}

impl Location {
    /// The place that `segments` lead to, if any: see
    /// [`LocationView::from_segments`].
    pub fn from_segments(segments: &Vec<String>) -> (place: Option<Location>)
        ensures
            LocationView::from_segments(segments.deep_view()) == match place {
                Some(place) => Some(place@),
                None => None,
            },
    {
        let n: usize = segments.len();
        if n == 0 {
            Some(Location::Root)
        } else if n == 1 {
            if segments[0] == LOCK_FILE_NAME.to_owned() {
                Some(Location::LockFile)
            } else if segments[0] == METADATA_FILE_NAME.to_owned() {
                Some(Location::Metadata)
            } else {
                Some(Location::TableDir(segments[0].clone()))
            }
        } else if n == 2 {
            Some(Location::Record(segments[0].clone(), segments[1].clone()))
        } else {
            None
        }
    }

    /// The path segments that lead from the root to this place; joining them
    /// to the root path in turn gives the place's path on disk.
    pub fn segments(&self) -> (segments: Vec<String>)
        ensures
            segments.deep_view() == self@.segments(),
    {
        let mut segments: Vec<String> = Vec::new();
        match self {
            Location::Root => {},
            Location::LockFile => {
                segments.push(LOCK_FILE_NAME.to_owned());
            },
            Location::Metadata => {
                segments.push(METADATA_FILE_NAME.to_owned());
            },
            Location::TableDir(table) => {
                segments.push(table.clone());
            },
            Location::Record(table, id) => {
                segments.push(table.clone());
                segments.push(id.clone());
            },
        }
        segments
    }
}

} // verus!
