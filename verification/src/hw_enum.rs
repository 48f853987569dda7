//! What the dashboard knows of an optical drive, and the names of the kinds
//! of media that a drive reports.

use vstd::prelude::*;
use crate::text::{str_trim, trim_spec};

verus! {

// Codes of the physical media types that a disc recorder reports
// (`IMAPI_MEDIA_PHYSICAL_TYPE`).
pub const MEDIA_TYPE_UNKNOWN: i32 = 0;
pub const MEDIA_TYPE_CDROM: i32 = 1;
pub const MEDIA_TYPE_CDR: i32 = 2;
pub const MEDIA_TYPE_CDRW: i32 = 3;
pub const MEDIA_TYPE_DVDROM: i32 = 4;
pub const MEDIA_TYPE_DVDRAM: i32 = 5;
pub const MEDIA_TYPE_DVDPLUSR: i32 = 6;
pub const MEDIA_TYPE_DVDPLUSRW: i32 = 7;
pub const MEDIA_TYPE_DVDPLUSR_DUALLAYER: i32 = 8;
pub const MEDIA_TYPE_DVDDASHR: i32 = 9;
pub const MEDIA_TYPE_DVDDASHRW: i32 = 10;
pub const MEDIA_TYPE_DVDDASHR_DUALLAYER: i32 = 11;
pub const MEDIA_TYPE_DISK: i32 = 12;
pub const MEDIA_TYPE_DVDPLUSRW_DUALLAYER: i32 = 13;
pub const MEDIA_TYPE_HDDVDROM: i32 = 14;
pub const MEDIA_TYPE_HDDVDR: i32 = 15;
pub const MEDIA_TYPE_HDDVDRAM: i32 = 16;
pub const MEDIA_TYPE_BDROM: i32 = 17;
pub const MEDIA_TYPE_BDR: i32 = 18;
pub const MEDIA_TYPE_BDRE: i32 = 19;

/// The name shown for a media type code; codes without a name of their own
/// show as `Unknown`.
pub open spec fn media_type_name(code: i32) -> Seq<char> {
    if code == MEDIA_TYPE_UNKNOWN {
        "Unknown"@
    } else if code == MEDIA_TYPE_CDROM {
        "CDROM"@
    } else if code == MEDIA_TYPE_CDR {
        "CDR"@
    } else if code == MEDIA_TYPE_CDRW {
        "CDRW"@
    } else if code == MEDIA_TYPE_DVDROM {
        "DVDROM"@
    } else if code == MEDIA_TYPE_DVDRAM {
        "DVDRAM"@
    } else if code == MEDIA_TYPE_DVDPLUSR {
        "DVD+R"@
    } else if code == MEDIA_TYPE_DVDPLUSRW {
        "DVD+RW"@
    } else if code == MEDIA_TYPE_DVDPLUSRW_DUALLAYER {
        "DVD+RW_DL"@
    } else if code == MEDIA_TYPE_DVDPLUSR_DUALLAYER {
        "DVD+R_DL"@
    } else if code == MEDIA_TYPE_DISK {
        "Disk"@
    } else if code == MEDIA_TYPE_BDR {
        "BD-R"@
    } else if code == MEDIA_TYPE_BDRE {
        "BD-RE"@
    } else if code == MEDIA_TYPE_BDROM {
        "BD-ROM"@
    } else {
        "Unknown"@
    }
}

/// Every code outside the recorder's range of media types, and every
/// DVD-dash and HD DVD type, shows as `Unknown`; the writable CD, DVD+ and
/// Blu-ray types show under their own names.
pub proof fn lemma_media_type_names(code: i32)
    ensures
        (code < 0 || code > 19) ==> media_type_name(code) == "Unknown"@,
        (9 <= code <= 11 || 14 <= code <= 16) ==> media_type_name(code) == "Unknown"@,
        code == 2 ==> media_type_name(code) == "CDR"@,
        code == 3 ==> media_type_name(code) == "CDRW"@,
        code == 6 ==> media_type_name(code) == "DVD+R"@,
        code == 7 ==> media_type_name(code) == "DVD+RW"@,
        code == 8 ==> media_type_name(code) == "DVD+R_DL"@,
        code == 13 ==> media_type_name(code) == "DVD+RW_DL"@,
        code == 18 ==> media_type_name(code) == "BD-R"@,
        code == 19 ==> media_type_name(code) == "BD-RE"@,
        code == 17 ==> media_type_name(code) == "BD-ROM"@,
{
}

/// One optical drive as the dashboard lists it.
pub struct DriveInfo {
    pub id: String,
    pub media_label: String,
    pub media_type: Option<String>,
    pub capacity: Option<u128>,
    pub capacity_readble: Option<String>,
}

/// The characters of an optional string.
pub open spec fn opt_text(o: Option<String>) -> Option<Seq<char>> {
    match o {
        Some(s) => Some(s@),
        None => None,
    }
}

pub struct DriveInfoView {
    pub id: Seq<char>,
    pub media_label: Seq<char>,
    pub media_type: Option<Seq<char>>,
    pub capacity: Option<u128>,
    pub capacity_readble: Option<Seq<char>>,
}

impl View for DriveInfo {
    type V = DriveInfoView;

    open spec fn view(&self) -> DriveInfoView {
        DriveInfoView {
            id: self.id@,
            media_label: self.media_label@,
            media_type: opt_text(self.media_type),
            capacity: self.capacity,
            capacity_readble: opt_text(self.capacity_readble),
        }
    }
}

/// The views of a list of drives.
pub open spec fn drive_views(v: Seq<DriveInfo>) -> Seq<DriveInfoView> {
    v.map_values(|d: DriveInfo| d@)
}

/// Bytes in one sector of optical media.
pub const SECTOR_BYTES: u128 = 2048;

impl DriveInfo {
    /// A drive with the given device id and label, whose media is not known
    /// yet.
    pub fn new(device_id: &String, label: &String) -> (d: DriveInfo)
        ensures
            d.id@ == device_id@,
            d.media_label@ == label@,
            d.media_type is None,
            d.capacity is None,
            d.capacity_readble is None,
    {
        DriveInfo {
            id: device_id.clone(),
            media_label: label.clone(),
            media_type: None,
            capacity: None,
            capacity_readble: None,
        }
    }

    /// The name of a media type code.
    pub fn get_media_type(media_num: i32) -> (name: String)
        ensures
            name@ == media_type_name(media_num),
    {
        match media_num {
        MEDIA_TYPE_UNKNOWN => String::from_str("Unknown"),
        MEDIA_TYPE_CDROM => String::from_str("CDROM"),
        MEDIA_TYPE_CDR => String::from_str("CDR"),
        MEDIA_TYPE_CDRW => String::from_str("CDRW"),
        MEDIA_TYPE_DVDROM => String::from_str("DVDROM"),
        MEDIA_TYPE_DVDRAM => String::from_str("DVDRAM"),
        MEDIA_TYPE_DVDPLUSR => String::from_str("DVD+R"),
        MEDIA_TYPE_DVDPLUSRW => String::from_str("DVD+RW"),
        MEDIA_TYPE_DVDPLUSRW_DUALLAYER => String::from_str("DVD+RW_DL"),
        MEDIA_TYPE_DVDPLUSR_DUALLAYER => String::from_str("DVD+R_DL"),
        MEDIA_TYPE_DISK => String::from_str("Disk"),
        MEDIA_TYPE_BDR => String::from_str("BD-R"),
        MEDIA_TYPE_BDRE => String::from_str("BD-RE"),
        MEDIA_TYPE_BDROM => String::from_str("BD-ROM"),
            _ => String::from_str("Unknown"),
        }
    }

    /// Whether a recorder is listed: the writer must support both the
    /// recorder and the media in it.
    pub fn is_listed(recorder_supported: bool, media_supported: bool) -> (b: bool)
        ensures
            b == (recorder_supported && media_supported),
    {
        recorder_supported && media_supported
    }

    /// The label under which a drive is listed: its product id without
    /// surrounding white space.
    pub fn label_from_product_id(product_id: &str) -> (label: String)
        ensures
            label@ == trim_spec(product_id@),
    {
        String::from_str(str_trim(product_id))
    }

    /// A drive whose media reported the type `media_num` and
    /// `free_sectors` free sectors: its capacity is the free space in
    /// bytes. The readable form of the capacity is left unset.
    pub fn with_media(device_id: &String, label: &String, media_num: i32, free_sectors: i32) -> (d: DriveInfo)
        requires
            free_sectors >= 0,
        ensures
            d.id@ == device_id@,
            d.media_label@ == label@,
            opt_text(d.media_type) == Some(media_type_name(media_num)),
            d.capacity == Some((free_sectors as int * 2048) as u128),
            d.capacity_readble is None,
    {
        let mut d = DriveInfo::new(device_id, label);
        d.media_type = Some(DriveInfo::get_media_type(media_num));
        let sectors: u128 = free_sectors as u128;
        d.capacity = Some(sectors * SECTOR_BYTES);
        d
    }

    /// A drive whose media type could not be read: it shows as holding no
    /// disc, with no capacity.
    pub fn without_disk(device_id: &String, label: &String) -> (d: DriveInfo)
        ensures
            d.id@ == device_id@,
            d.media_label@ == label@,
            opt_text(d.media_type) == Some("No Disk"@),
            d.capacity == Some(0u128),
            opt_text(d.capacity_readble) == Some("N/A"@),
    {
        let mut d = DriveInfo::new(device_id, label);
        d.media_type = Some(String::from_str("No Disk"));
        d.capacity = Some(0);
        d.capacity_readble = Some(String::from_str("N/A"));
        d
    }

    /// The line of the drive list: label, media type (or `Unknown`) and a
    /// trailing space.
    pub fn list_label(&self) -> (line: String)
        ensures
            line@ == self.media_label@ + " "@ + (match self.media_type {
                Some(t) => t@,
                None => "Unknown"@,
            }) + " "@,
    {
        let mut line = self.media_label.clone();
        line.append(" ");
        match &self.media_type {
            Some(t) => line.append(t.as_str()),
            None => line.append("Unknown"),
        }
        line.append(" ");
        line
    }
}

} // verus!
