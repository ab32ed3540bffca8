//! Where the payload of an add command comes from.

use vstd::prelude::*;

verus! {

/// The source of a search-result payload handed to the add command:
/// standard input, a file named on the command line, or raw data given
/// inline.
#[derive(Debug, PartialEq, Eq)]
pub enum DataSource {
    Stdin,
    File(String),
    Data(String),
}

impl DataSource {
    /// Chooses the source from the two optional arguments of the add
    /// command: both at once is invalid, inline data wins over the
    /// default, and a file path of `"-"` (or no path at all) means
    /// standard input.
    pub fn from(file_path: Option<&str>, data: Option<&str>) -> (r: Option<DataSource>)
        ensures
            file_path is Some && data is Some ==> r is None,
            data matches Some(d) ==> (file_path is None ==> (r matches Some(s) && s matches
                DataSource::Data(v) && v@ == d@)),
            file_path matches Some(p) ==> ((data is None && p@ == "-"@) ==> r == Some(
                DataSource::Stdin,
            )),
            file_path matches Some(p) ==> ((data is None && p@ != "-"@) ==> (r matches Some(s)
                && s matches DataSource::File(v) && v@ == p@)),
            file_path is None && data is None ==> r == Some(DataSource::Stdin),
    {
        match (file_path, data) {
            (Some(_), Some(_)) => None,
            (None, Some(data)) => Some(DataSource::Data(data.to_owned())),
            (file_path, None) => {
                let file_path = match file_path {
                    Some(p) => p,
                    None => "-",
                };

                if file_path.to_owned() == "-".to_owned() {
                    Some(DataSource::Stdin)
                } else {
                    Some(DataSource::File(file_path.to_owned()))
                }
            },
        }
    }

    /// The text this source stands for: inline data as given, a file
    /// source as its path, and standard input as the word `"stdin"`.
    pub fn read(&self) -> (r: String)
        ensures
            self matches DataSource::Data(d) ==> r == d,
            self matches DataSource::File(p) ==> r == p,
            self matches DataSource::Stdin ==> r@ == "stdin"@,
    {
        match self {
            DataSource::Data(data) => data.clone(),
            DataSource::File(file_path) => file_path.clone(),
            DataSource::Stdin => "stdin".to_owned(),
        }
    }
}

} // verus!
