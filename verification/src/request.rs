//! Construction of the storage upload request: the object name and
//! the JSON metadata part of the multipart body. Both are pinned down
//! character for character by their spec-level counterparts.
use vstd::prelude::*;
use vstd::string::StringExecFns;

use crate::render::{
    append_i64, append_json_escaped, micro_to_decimal, spec_int_str, spec_json_escape,
    spec_micro_decimal,
};

verus! {

/// The name the uploaded object is stored under: the original file
/// name, an underscore, and the capture timestamp in seconds since
/// the epoch. The timestamp keeps repeated uploads of the same file
/// name apart within a session.
pub open spec fn spec_object_name(file_name: Seq<char>, timestamp: int) -> Seq<char> {
    file_name + seq!['_'] + spec_int_str(timestamp)
}

/// The JSON metadata part of the multipart upload body: the object
/// name, the destination folder reference, and the two custom string
/// properties holding latitude and longitude as decimal strings.
pub open spec fn spec_metadata_json(
    object_name: Seq<char>,
    folder_id: Seq<char>,
    lat_micro: int,
    lon_micro: int,
) -> Seq<char> {
    "{\"name\":\""@ + spec_json_escape(object_name) + "\",\"parents\":[\""@ + spec_json_escape(
        folder_id,
    ) + "\"],\"properties\":{\"lat\":\""@ + spec_micro_decimal(lat_micro) + "\",\"lon\":\""@
        + spec_micro_decimal(lon_micro) + "\"}}"@
}

/// A fully built upload request, ready for the storage client: the
/// object name and the metadata document that accompany the binary
/// payload.
pub struct UploadRequest {
    pub object_name: String,
    pub metadata_json: String,
}

/// The mathematical value of an `UploadRequest`.
pub struct UploadRequestView {
    pub object_name: Seq<char>,
    pub metadata_json: Seq<char>,
}

impl View for UploadRequest {
    type V = UploadRequestView;

    open spec fn view(&self) -> UploadRequestView {
        UploadRequestView { object_name: self.object_name@, metadata_json: self.metadata_json@ }
    }
}

/// Builds the object name for a file captured at `timestamp`.
pub fn build_object_name(file_name: &str, timestamp: i64) -> (r: String)
    ensures
        r@ == spec_object_name(file_name@, timestamp as int),
{
    let mut s = String::from_str(file_name);
    s.append("_");
    append_i64(&mut s, timestamp);
    proof {
        reveal_strlit("_");
        assert(s@ =~= spec_object_name(file_name@, timestamp as int));
    }
    s
}

/// Builds the metadata JSON document for an upload.
pub fn build_metadata_json(object_name: &str, folder_id: &str, lat_micro: i64, lon_micro: i64) -> (r:
    String)
    ensures
        r@ == spec_metadata_json(object_name@, folder_id@, lat_micro as int, lon_micro as int),
{
    let mut s = String::from_str("{\"name\":\"");
    append_json_escaped(&mut s, object_name);
    s.append("\",\"parents\":[\"");
    append_json_escaped(&mut s, folder_id);
    s.append("\"],\"properties\":{\"lat\":\"");
    let lat = micro_to_decimal(lat_micro);
    s.append(lat.as_str());
    s.append("\",\"lon\":\"");
    let lon = micro_to_decimal(lon_micro);
    s.append(lon.as_str());
    s.append("\"}}");
    proof {
        assert(s@ =~= spec_metadata_json(
            object_name@,
            folder_id@,
            lat_micro as int,
            lon_micro as int,
        ));
    }
    s
}

/// Builds the whole upload request for a file captured at `timestamp`
/// with the given coordinates, destined for `folder_id`.
pub fn build_upload_request(file_name: &str, timestamp: i64, folder_id: &str, lat_micro: i64, lon_micro: i64) -> (r:
    UploadRequest)
    ensures
        r@.object_name == spec_object_name(file_name@, timestamp as int),
        r@.metadata_json == spec_metadata_json(
            spec_object_name(file_name@, timestamp as int),
            folder_id@,
            lat_micro as int,
            lon_micro as int,
        ),
{
    let object_name = build_object_name(file_name, timestamp);
    let metadata_json = build_metadata_json(object_name.as_str(), folder_id, lat_micro, lon_micro);
    UploadRequest { object_name, metadata_json }
}

} // verus!
