//! An archive of the archive server, and what the pipeline derives from it
//! without leaving the process.
use vstd::prelude::*;
use vstd::string::*;
use crate::text::{contains_char, starts_with, has_prefix};
use crate::title::{extract_title, extracted_title};

verus! {

/// One archive as the archive server lists it.
#[derive(Clone, Debug)]
pub struct Archive {
    pub arcid: String,
    pub extension: String,
    pub isnew: String,
    pub lastreadtime: i64,
    pub pagecount: i32,
    pub progress: i32,
    /// Comma-joined `namespace:value` tags.
    pub tags: String,
    pub title: String,
}

/// The prefix of the housekeeping tag that the server adds to every archive.
pub open spec fn date_added_prefix() -> Seq<char> {
    seq!['d', 'a', 't', 'e', '_', 'a', 'd', 'd', 'e', 'd']
}

/// A tag string holds no real classification: it is empty, or it is a single
/// tag (no comma) that begins with `date_added`.
pub open spec fn tags_are_empty(tags: Seq<char>) -> bool {
    tags.len() == 0 || (!tags.contains(',') && has_prefix(tags, date_added_prefix()))
}

/// `old` and `new` joined by one comma.
pub open spec fn joined_tags(old: Seq<char>, new: Seq<char>) -> Seq<char> {
    old + seq![','] + new
}

/// The metadata endpoint of archive `arcid` on server `endpoint` (`host:port`).
pub open spec fn metadata_url_of(endpoint: Seq<char>, arcid: Seq<char>) -> Seq<char> {
    "http://"@ + endpoint + "/api/archives/"@ + arcid + "/metadata"@
}

/// The endpoint that lists every archive of server `endpoint`.
pub open spec fn archives_url_of(endpoint: Seq<char>) -> Seq<char> {
    "http://"@ + endpoint + "/api/archives"@
}

impl Archive {
    /// Whether the archive still lacks descriptive tags, and so enters the
    /// pipeline.
    pub fn is_empty_tags(&self) -> (r: bool)
        ensures
            r == tags_are_empty(self.tags@),
    {
        let tags = self.tags.as_str();
        if tags.unicode_len() == 0 {
            return true;
        }
        let prefix = "date_added";
        proof {
            reveal_strlit("date_added");
            assert(prefix@ =~= date_added_prefix());
        }
        !contains_char(tags, ',') && starts_with(tags, prefix)
    }

    /// The search phrase of the archive's title (empty when it has none).
    pub fn regex_title(&self) -> (r: String)
        ensures
            r@ == extracted_title(self.title@),
    {
        extract_title(self.title.as_str())
    }

    /// The archive's tags with `new_tags` appended after a comma.
    pub fn merged_tags(&self, new_tags: &str) -> (r: String)
        ensures
            r@ == joined_tags(self.tags@, new_tags@),
    {
        let comma = ",";
        proof {
            reveal_strlit(",");
        }
        self.tags.clone().concat(comma).concat(new_tags)
    }

    /// Where the archive's metadata is written back.
    pub fn metadata_url(&self, endpoint: &str) -> (r: String)
        ensures
            r@ == metadata_url_of(endpoint@, self.arcid@),
    {
        proof {
            reveal_strlit("http://");
            reveal_strlit("/api/archives/");
            reveal_strlit("/metadata");
        }
        String::from_str("http://").concat(endpoint).concat("/api/archives/").concat(
            self.arcid.as_str(),
        ).concat("/metadata")
    }
}

/// Where the list of all archives is fetched.
pub fn archives_url(endpoint: &str) -> (r: String)
    ensures
        r@ == archives_url_of(endpoint@),
{
    proof {
        reveal_strlit("http://");
        reveal_strlit("/api/archives");
    }
    String::from_str("http://").concat(endpoint).concat("/api/archives")
}

} // verus!
