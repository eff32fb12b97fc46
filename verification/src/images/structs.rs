use crate::clock::{
    can_be_offset, date_time_in, date_time_text, has_date_time, in_clock_range, is_offset,
};
use crate::images::usage::{gigabytes, push_gigabytes};
use crate::utilities::placeholder;
use vstd::prelude::*;

verus! {

broadcast use vstd::seq::group_seq_axioms;

/// The images of a listing.
pub type Images = Vec<Image>;

/// The size of an image as the control utility gives it: a number of bytes,
/// or, from some versions of the daemon, a text that is ready to be shown.
#[derive(Debug, Clone, PartialEq, Eq)]
pub enum Usage {
    Bytes(i64),
    Text(String),
}

/// An image as the control utility lists it. `created` and `modified` are
/// microseconds since the Unix epoch.
#[derive(Default, Debug, Clone, PartialEq, Eq)]
pub struct Image {
    pub name: String,
    pub type_field: String,
    pub ro: bool,
    pub usage: Option<Usage>,
    pub created: i64,
    pub modified: i64,
}

/// The moments of an image whose date and time are to be shown: the whole
/// seconds of each of its two times that is not zero.
#[derive(Debug, Clone, Copy, PartialEq, Eq, Structural)]
pub struct Moments {
    pub created: Option<i64>,
    pub modified: Option<i64>,
}

/// How many seconds the time zone of the machine is ahead of UTC at the
/// moments of an image.
#[derive(Debug, Clone, Copy, PartialEq, Eq, Structural)]
pub struct Offsets {
    pub created: Option<i32>,
    pub modified: Option<i32>,
}

/// An image to be shown: the record, and how many seconds the time zone is
/// ahead of UTC at the time of its creation and at the time of its last
/// change. The offset of a time of zero is not looked at.
#[derive(Debug, Clone, PartialEq, Eq)]
pub struct Listed {
    pub image: Image,
    pub created_east: i32,
    pub modified_east: i32,
}

/// Whole seconds of a time in microseconds, rounded toward zero.
pub open spec fn seconds(micros: i64) -> int {
    if micros >= 0 {
        micros / 1_000_000
    } else {
        -((-micros) / 1_000_000)
    }
}

/// What a table shows for a time of `micros` microseconds in a time zone
/// that is `east` seconds ahead of UTC: the placeholder for a time of zero,
/// else the date and time of its whole seconds.
pub open spec fn stamp(micros: i64, east: int) -> Seq<char> {
    if micros == 0 {
        placeholder()
    } else {
        date_time_text(seconds(micros), east)
    }
}

/// The moment of a time of `micros` microseconds: none for a time of zero,
/// else its whole seconds.
pub open spec fn moment(micros: i64) -> Option<i64> {
    if micros == 0 {
        None
    } else {
        Some(seconds(micros) as i64)
    }
}

/// Whether `east` tells the time zone at a time of `micros` microseconds:
/// a time of zero needs none, any other needs an offset that a zone can
/// have.
pub open spec fn tells_zone(micros: i64, east: Option<i32>) -> bool {
    micros != 0 ==> (east matches Some(seconds) && is_offset(seconds as int))
}

/// The offset to show a time of `micros` microseconds in.
pub open spec fn zone_of(micros: i64, east: Option<i32>) -> i32 {
    match east {
        Some(seconds) if micros != 0 => seconds,
        _ => 0,
    }
}

/// What a table shows for a usage: the size in gigabytes of 10^9 bytes
/// where it is given in bytes, the text as it is where it is given as
/// text, and the placeholder where it is not known.
pub open spec fn usage_text(usage: Option<Usage>) -> Seq<char> {
    match usage {
        None => placeholder(),
        Some(Usage::Bytes(bytes)) => gigabytes(bytes as int),
        Some(Usage::Text(text)) => text@,
    }
}

/// Whole seconds of a time in microseconds.
pub fn to_seconds(micros: i64) -> (secs: i64)
    ensures
        secs == seconds(micros),
{
    micros / 1_000_000
}

/// The cell for a time of `micros` microseconds in a time zone that is
/// `east` seconds ahead of UTC.
pub fn stamp_at(micros: i64, east: i32) -> (cell: String)
    requires
        in_clock_range(seconds(micros)),
        is_offset(east as int),
    ensures
        cell@ == stamp(micros, east as int),
{
    if micros == 0 {
        "-".to_string()
    } else {
        date_time_in(to_seconds(micros), east).unwrap()
    }
}

/// The moment of a time of `micros` microseconds.
pub fn moment_of(micros: i64) -> (at: Option<i64>)
    ensures
        at == moment(micros),
{
    if micros == 0 {
        None
    } else {
        Some(to_seconds(micros))
    }
}

impl Usage {
    /// A copy of this usage.
    pub fn duplicate(&self) -> (copy: Usage)
        ensures
            copy == *self,
    {
        match self {
            Usage::Bytes(bytes) => Usage::Bytes(*bytes),
            Usage::Text(text) => Usage::Text(text.clone()),
        }
    }
}

impl Image {
    /// Whether both times of this image have a date that can be shown.
    pub open spec fn displayable(&self) -> bool {
        &&& in_clock_range(seconds(self.created))
        &&& in_clock_range(seconds(self.modified))
    }

    /// The moments of this image whose date and time are to be shown.
    pub open spec fn moments(&self) -> Moments {
        Moments { created: moment(self.created), modified: moment(self.modified) }
    }

    /// Whether `offsets` tell the time zone at each time of this image
    /// that is not zero.
    pub open spec fn answered_by(&self, offsets: Offsets) -> bool {
        &&& tells_zone(self.created, offsets.created)
        &&& tells_zone(self.modified, offsets.modified)
    }

    /// This image with the offsets to show its times in.
    pub open spec fn listed(&self, offsets: Offsets) -> Listed {
        Listed {
            image: *self,
            created_east: zone_of(self.created, offsets.created),
            modified_east: zone_of(self.modified, offsets.modified),
        }
    }

    /// Tests [`Image::displayable`].
    pub fn is_displayable(&self) -> (ok: bool)
        ensures
            ok == self.displayable(),
    {
        has_date_time(to_seconds(self.created)) && has_date_time(to_seconds(self.modified))
    }

    /// The moments at which the time zone has to be known to show this
    /// image.
    pub fn to_look_up(&self) -> (asked: Moments)
        ensures
            asked == self.moments(),
    {
        Moments { created: moment_of(self.created), modified: moment_of(self.modified) }
    }

    /// Tests [`Image::answered_by`].
    pub fn is_answered_by(&self, offsets: &Offsets) -> (ok: bool)
        ensures
            ok == self.answered_by(*offsets),
    {
        let created = self.created == 0 || match offsets.created {
            Some(east) => can_be_offset(east),
            None => false,
        };
        let modified = self.modified == 0 || match offsets.modified {
            Some(east) => can_be_offset(east),
            None => false,
        };
        created && modified
    }

    /// This image with the offsets to show its times in.
    pub fn with_offsets(self, offsets: &Offsets) -> (shown: Listed)
        ensures
            shown == self.listed(*offsets),
    {
        let created_east = match offsets.created {
            Some(east) => if self.created != 0 {
                east
            } else {
                0
            },
            None => 0,
        };
        let modified_east = match offsets.modified {
            Some(east) => if self.modified != 0 {
                east
            } else {
                0
            },
            None => 0,
        };
        Listed { image: self, created_east, modified_east }
    }

    /// A copy of this record.
    pub fn duplicate(&self) -> (copy: Image)
        ensures
            copy == *self,
    {
        Image {
            name: self.name.clone(),
            type_field: self.type_field.clone(),
            ro: self.ro,
            usage: match &self.usage {
                Some(usage) => Some(usage.duplicate()),
                None => None,
            },
            created: self.created,
            modified: self.modified,
        }
    }

    /// The cell for the time of creation in a time zone that is `east`
    /// seconds ahead of UTC: `-` for a time of zero, else the date and time
    /// of its whole seconds. The record stays as it is.
    pub fn created_to_timestamp(&mut self, east: i32) -> (cell: String)
        requires
            in_clock_range(seconds(old(self).created)),
            is_offset(east as int),
        ensures
            *final(self) == *old(self),
            cell@ == stamp(old(self).created, east as int),
    {
        stamp_at(self.created, east)
    }

    /// The cell for the time of the last change in a time zone that is
    /// `east` seconds ahead of UTC: `-` for a time of zero, else the date
    /// and time of its whole seconds. The record stays as it is.
    pub fn modified_to_timestamp(&mut self, east: i32) -> (cell: String)
        requires
            in_clock_range(seconds(old(self).modified)),
            is_offset(east as int),
        ensures
            *final(self) == *old(self),
            cell@ == stamp(old(self).modified, east as int),
    {
        stamp_at(self.modified, east)
    }

    /// The cell for the usage: the size in gigabytes of 10^9 bytes with two
    /// decimals, a usage that comes as text as it is, or the placeholder
    /// where the usage is not known. The record stays as it is.
    pub fn get_usage_in_gb(&mut self) -> (cell: String)
        ensures
            *final(self) == *old(self),
            cell@ == usage_text(old(self).usage),
    {
        match &self.usage {
            None => "-".to_string(),
            Some(Usage::Bytes(bytes)) => {
                let mut cell = String::new();
                push_gigabytes(&mut cell, *bytes);
                cell
            },
            Some(Usage::Text(text)) => text.clone(),
        }
    }
}

impl Listed {
    /// Whether the image can be shown: its times have a date, and the
    /// offsets are such as a time zone can have.
    pub open spec fn showable(&self) -> bool {
        &&& self.image.displayable()
        &&& is_offset(self.created_east as int)
        &&& is_offset(self.modified_east as int)
    }

    /// Tests [`Listed::showable`].
    pub fn is_showable(&self) -> (ok: bool)
        ensures
            ok == self.showable(),
    {
        self.image.is_displayable() && can_be_offset(self.created_east) && can_be_offset(
            self.modified_east,
        )
    }

    /// A copy of this record.
    pub fn duplicate(&self) -> (copy: Listed)
        ensures
            copy == *self,
    {
        Listed {
            image: self.image.duplicate(),
            created_east: self.created_east,
            modified_east: self.modified_east,
        }
    }
}

} // verus!
