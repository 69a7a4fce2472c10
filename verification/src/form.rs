//! The page that the server answers a page view with: a form that lets the
//! client pick a file and posts it, as multipart form data, to the address
//! that the page was fetched from.

use vstd::prelude::*;

verus! {

/// The upload form, as an HTML document.
///
/// The form names no target, so it is posted to the address of the page
/// itself; it is sent as `multipart/form-data` and holds one file input,
/// called `file`.
pub const UPLOAD_FORM: &'static str = r#"
        <!doctype html>
        <title>Upload File</title>
        <h1>Upload File</h1>
        <form method="post" enctype="multipart/form-data">
            <input type="file" name="file">
            <input type="submit" value="Upload">
        </form>
    "#;

/// Whether `pattern` stands in `text` at the position `at`.
pub open spec fn occurs_at(text: Seq<char>, pattern: Seq<char>, at: int) -> bool {
    &&& 0 <= at
    &&& at + pattern.len() <= text.len()
    &&& text.subrange(at, at + pattern.len()) == pattern
}

/// Whether `pattern` stands anywhere in `text`.
pub open spec fn occurs_in(text: Seq<char>, pattern: Seq<char>) -> bool {
    exists|at: int| occurs_at(text, pattern, at)
}

/// The page that a page view is answered with: the upload form, always the
/// same.
pub fn upload_form() -> (page: &'static str)
    ensures
        page@ == UPLOAD_FORM@,
{
    UPLOAD_FORM
}

/// The upload form posts a file as multipart form data to the address of the
/// page itself: it holds a form that is sent with `post` and encoded as
/// `multipart/form-data`; inside the form, a file input called `file`, then
/// a submit button; and nowhere an `action` that would name another target.
pub proof fn lemma_form_posts_multipart()
    ensures
        occurs_at(UPLOAD_FORM@, "<form method=\"post\" enctype=\"multipart/form-data\">"@, 97),
        occurs_at(UPLOAD_FORM@, "<input type=\"file\" name=\"file\">"@, 160),
        occurs_at(UPLOAD_FORM@, "<input type=\"submit\""@, 204),
        occurs_at(UPLOAD_FORM@, "</form>"@, 249),
        !occurs_in(UPLOAD_FORM@, "action"@),
{
    reveal_strlit(
        r#"
        <!doctype html>
        <title>Upload File</title>
        <h1>Upload File</h1>
        <form method="post" enctype="multipart/form-data">
            <input type="file" name="file">
            <input type="submit" value="Upload">
        </form>
    "#,
    );
    reveal_strlit("<form method=\"post\" enctype=\"multipart/form-data\">");
    reveal_strlit("<input type=\"file\" name=\"file\">");
    reveal_strlit("<input type=\"submit\"");
    reveal_strlit("</form>");
    reveal_strlit("action");
    let page = UPLOAD_FORM@;
    assert(page.subrange(97, 147) =~= "<form method=\"post\" enctype=\"multipart/form-data\">"@);
    assert(page.subrange(160, 191) =~= "<input type=\"file\" name=\"file\">"@);
    assert(page.subrange(204, 224) =~= "<input type=\"submit\""@);
    assert(page.subrange(249, 256) =~= "</form>"@);
    assert forall|at: int| !occurs_at(page, "action"@, at) by {
        if 0 <= at && at + 6 <= page.len() {
            let found = page.subrange(at, at + 6);
            assert(found[0] == page[at]);
            assert(found[1] == page[at + 1]);
            assert(!(page[at] == 'a' && page[at + 1] == 'c'));
        }
    }
}

} // verus!
