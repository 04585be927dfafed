//! The text of a stored document.

use vstd::prelude::*;
use crate::text::{joined, owned};

verus! {

/// The text of a file that holds `data_content` under the comment `prefix`:
/// the comment, an empty line, the content. Without a comment it is the
/// content alone.
pub open spec fn file_text(data_content: Seq<char>, prefix: Option<Seq<char>>) -> Seq<char> {
    match prefix {
        Some(comment) => comment + "\n\n"@ + data_content,
        None => data_content,
    }
}

/// The text to write for a document whose serialized form is
/// `data_content`, headed by the comment `prefix` if there is one.
pub fn save_yaml(data_content: &str, prefix: Option<&str>) -> (yaml_content: String)
    ensures
        yaml_content@ == file_text(
            data_content@,
            match prefix {
                Some(comment) => Some(comment@),
                None => None,
            },
        ),
{
    match prefix {
        Some(comment) => joined(joined(comment, "\n\n").as_str(), data_content),
        None => owned(data_content),
    }
}

} // verus!
