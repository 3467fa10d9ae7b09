use vstd::prelude::*;
use vstd::string::StringExecFns;

verus! {

/// Why a path is refused as the file to transfer.
#[derive(Clone, Copy, Debug, PartialEq, Eq, Structural)]
pub enum FileTypeError {
    /// The file name has no extension.
    MissingExtension,
    /// The extension is not `stl`.
    NotStl,
}

/// The extension of a path's file name, as `std::path::Path::extension`
/// finds it.
pub uninterp spec fn extension_of(path: Seq<char>) -> Option<Seq<char>>;

/// Relies on `std::path::Path::extension`: the part of the file name after
/// its last dot, if there is one. A path given as `&str` has a UTF-8
/// extension, so the conversion loses nothing.
#[verifier::external_body]
fn path_extension(path: &str) -> (r: Option<String>)
    ensures
        r matches Some(e) ==> extension_of(path@) == Some(e@),
        r is None ==> extension_of(path@) is None,
{
    match std::path::Path::new(path).extension() {
        Some(e) => Some(e.to_string_lossy().into_owned()),
        None => None,
    }
}

/// Accepts `path` when `extension`, the extension of its file name, is `stl`.
pub fn check_extension(path: &str, extension: Option<String>) -> (r: Result<String, FileTypeError>)
    ensures
        extension is None ==> r == Err::<String, FileTypeError>(FileTypeError::MissingExtension),
        extension matches Some(e) ==> (e@ == "stl"@ ==> (r matches Ok(p) && p@ == path@)),
        extension matches Some(e) ==> (e@ != "stl"@ ==> r == Err::<String, FileTypeError>(
            FileTypeError::NotStl,
        )),
{
    proof {
        reveal_strlit("stl");
    }
    match extension {
        None => Err(FileTypeError::MissingExtension),
        Some(e) => {
            let stl = String::from_str("stl");
            if e == stl {
                Ok(String::from_str(path))
            } else {
                Err(FileTypeError::NotStl)
            }
        },
    }
}

/// Checks that `stl_file_path` names an `.stl` file and gives the path back.
pub fn validate_stl_file(stl_file_path: &str) -> (r: Result<String, FileTypeError>)
    ensures
        extension_of(stl_file_path@) is None ==> r == Err::<String, FileTypeError>(
            FileTypeError::MissingExtension,
        ),
        extension_of(stl_file_path@) matches Some(e) ==> (e == "stl"@ ==> (r matches Ok(p) && p@
            == stl_file_path@)),
        extension_of(stl_file_path@) matches Some(e) ==> (e != "stl"@ ==> r == Err::<
            String,
            FileTypeError,
        >(FileTypeError::NotStl)),
{
    let extension = path_extension(stl_file_path);
    check_extension(stl_file_path, extension)
}

} // verus!
