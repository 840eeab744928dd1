use vstd::prelude::*;

verus! {

/// Why a clipboard request failed.
#[derive(Clone, Copy, PartialEq, Eq, Debug, Structural)]
pub enum ClipboardError {
    FailedToRead,
    FailedToSet,
    NotAvailable,
}

/// An image on the clipboard: RGBA pixels, row after row.
#[derive(Clone, PartialEq, Eq, Debug)]
pub struct ClipboardImage {
    pub width: usize,
    pub height: usize,
    pub bytes: Vec<u8>,
}

/// What `format!("{:?}", s)` writes for the string `s`: the string in double quotes with
/// its quotes, backslashes and control characters escaped, as Rust's `Debug` for `str` does.
pub uninterp spec fn debug_quoted(s: Seq<char>) -> Seq<char>;

/// `<str as core::fmt::Debug>::fmt`, through `format!`: the quoted, escaped form of `s`.
/// Its contract names that form and says nothing more of it.
#[verifier::external_body]
fn debug_quote(s: &str) -> (r: String)
    ensures
        r@ == debug_quoted(s@),
{
    format!("{:?}", s)
}

/// The script that puts `contents` on the browser's clipboard through the hidden IME input.
pub open spec fn copy_script_of(contents: Seq<char>) -> Seq<char> {
    "window.__freyaIme.copy("@ + debug_quoted(contents) + ");"@
}

/// Clipboard backed by the hidden IME input.
///
/// Text only: the browser hands a paste over as a string through the IME, with no image
/// data to read or write, so the image half reports that there is none.
pub struct WebClipboard;

impl WebClipboard {
    /// The text of the last paste, which the browser kept for the page (`pasted`);
    /// where there is none, the read failed.
    pub fn get_text(&mut self, pasted: Option<String>) -> (r: Result<String, ClipboardError>)
        ensures
            r == (match pasted {
                Some(text) => Ok(text),
                None => Err(ClipboardError::FailedToRead),
            }),
    {
        match pasted {
            Some(text) => Ok(text),
            None => Err(ClipboardError::FailedToRead),
        }
    }

    /// The script to run in the page to copy `contents`: one call of the IME's `copy` with
    /// the contents as a quoted string literal.
    pub fn copy_script(contents: &str) -> (r: String)
        ensures
            r@ == copy_script_of(contents@),
    {
        let quoted = debug_quote(contents);
        let mut script = String::from_str("window.__freyaIme.copy(");
        script.append(quoted.as_str());
        script.append(");");
        script
    }

    /// There is no image to read in the browser.
    pub fn get_image(&mut self) -> (r: Result<ClipboardImage, ClipboardError>)
        ensures
            r == Err::<ClipboardImage, ClipboardError>(ClipboardError::NotAvailable),
    {
        Err(ClipboardError::NotAvailable)
    }

    /// Nor any way to write one.
    pub fn set_image(&mut self, image: ClipboardImage) -> (r: Result<(), ClipboardError>)
        ensures
            r == Err::<(), ClipboardError>(ClipboardError::NotAvailable),
    {
        Err(ClipboardError::NotAvailable)
    }
}

/// The copy script is one call of the IME's `copy`: the 23 characters
/// `window.__freyaIme.copy(`, then the quoted form of all of the contents, however long,
/// then `);`, and nothing else.
pub proof fn lemma_copy_script_quotes_all_contents(contents: Seq<char>)
    ensures
        copy_script_of(contents).len() == 23 + debug_quoted(contents).len() + 2,
        copy_script_of(contents).subrange(0, 23) == "window.__freyaIme.copy("@,
        copy_script_of(contents).subrange(23int, 23int + debug_quoted(contents).len())
            == debug_quoted(contents),
        copy_script_of(contents).subrange(
            23int + debug_quoted(contents).len(),
            copy_script_of(contents).len() as int,
        ) == ");"@,
{
    reveal_strlit("window.__freyaIme.copy(");
    reveal_strlit(");");
    let q = debug_quoted(contents);
    let s = copy_script_of(contents);
    assert(s.subrange(0, 23) =~= "window.__freyaIme.copy("@);
    assert(s.subrange(23int, 23int + q.len()) =~= q);
    assert(s.subrange(23int + q.len(), s.len() as int) =~= ");"@);
}

} // verus!
