//! The answer to an upload.
//!
//! The runtime stores every file of an upload as it arrives. What the
//! client is told depends only on the paths the files were stored under.

use vstd::prelude::*;
use vstd::string::*;
use crate::error::{AppError, AppErrorView};
use crate::text::texts;

verus! {

/// The path to report for an upload: that of the file stored last, or the
/// error for an upload without any file.
pub open spec fn upload_answer(stored: Seq<Seq<char>>) -> Result<Seq<char>, AppErrorView> {
    if stored.len() == 0 {
        Err(AppErrorView::BadRequest("No file provided"@))
    } else {
        Ok(stored.last())
    }
}

/// Decides the answer to an upload from the paths its files were stored
/// under, in the order of their arrival.
pub fn answer_upload(stored: &Vec<String>) -> (result: Result<String, AppError>)
    ensures
        match upload_answer(texts(stored@)) {
            Ok(path) => result matches Ok(found) && found@ == path,
            Err(e) => result matches Err(found) && found@ == e,
        },
{
    if stored.len() == 0 {
        Err(AppError::BadRequest(String::from_str("No file provided")))
    } else {
        Ok(stored[stored.len() - 1].clone())
    }
}

} // verus!
