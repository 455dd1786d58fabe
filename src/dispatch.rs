//! Choosing the manifest format of a file by its name.

use crate::converter::{ConverterOutput, RecordView};
use crate::manifests::{
    cargo_record, composer_record, package_record, CargoToml, ComposerJson, ConvertError,
    PackageJson,
};
use crate::node::{json_document, toml_document};
use crate::text::{find_after_last, last_segment, lemma_after_last, substring};
use vstd::prelude::*;

verus! {

/// The manifest formats, each known by its exact file name.
#[derive(Debug, Clone, Copy, PartialEq, Eq, Structural)]
pub enum SupportedFile {
    ComposerJson,
    PackageJson,
    CargoToml,
}

impl SupportedFile {
    pub open spec fn spec_name(self) -> Seq<char> {
        match self {
            SupportedFile::ComposerJson => "composer.json"@,
            SupportedFile::PackageJson => "package.json"@,
            SupportedFile::CargoToml => "Cargo.toml"@,
        }
    }

    /// The file name of the format.
    pub fn to_string(&self) -> (r: &'static str)
        ensures
            r@ == self.spec_name(),
    {
        match self {
            SupportedFile::ComposerJson => "composer.json",
            SupportedFile::PackageJson => "package.json",
            SupportedFile::CargoToml => "Cargo.toml",
        }
    }

    /// The format whose file name is exactly `file_type`.
    pub fn from_str(file_type: &str) -> (r: Result<SupportedFile, ConvertError>)
        ensures
            r == file_kind(file_type@),
    {
        let t = String::from_str(file_type);
        if t == String::from_str("composer.json") {
            Ok(SupportedFile::ComposerJson)
        } else if t == String::from_str("package.json") {
            Ok(SupportedFile::PackageJson)
        } else if t == String::from_str("Cargo.toml") {
            Ok(SupportedFile::CargoToml)
        } else {
            Err(ConvertError::UnsupportedFile)
        }
    }
}

pub open spec fn file_kind(name: Seq<char>) -> Result<SupportedFile, ConvertError> {
    if name == "composer.json"@ {
        Ok(SupportedFile::ComposerJson)
    } else if name == "package.json"@ {
        Ok(SupportedFile::PackageJson)
    } else if name == "Cargo.toml"@ {
        Ok(SupportedFile::CargoToml)
    } else {
        Err(ConvertError::UnsupportedFile)
    }
}

/// The last component of a path, where it is not empty.
pub open spec fn file_name(path: Seq<char>) -> Option<Seq<char>> {
    if last_segment(path, '/').len() > 0 {
        Some(last_segment(path, '/'))
    } else {
        None
    }
}

/// The record that the file at `path` with text `contents` converts to.
pub open spec fn converted(path: Seq<char>, contents: Seq<char>) -> Result<RecordView, ConvertError> {
    match file_name(path) {
        None => Err(ConvertError::FileNotFound),
        Some(name) => match file_kind(name) {
            Err(e) => Err(e),
            Ok(SupportedFile::PackageJson) => match json_document(contents) {
                Some(root) => Ok(package_record(path, root)),
                None => Err(ConvertError::Malformed),
            },
            Ok(SupportedFile::ComposerJson) => match json_document(contents) {
                Some(root) => Ok(composer_record(path, root)),
                None => Err(ConvertError::Malformed),
            },
            Ok(SupportedFile::CargoToml) => match toml_document(contents) {
                Some(root) => Ok(cargo_record(path, root)),
                None => Err(ConvertError::Malformed),
            },
        },
    }
}

/// Converts manifest files to the common record.
pub struct Converter;

impl Converter {
    pub fn new() -> (r: Converter) {
        Converter
    }

    /// The last component of `path`, where it is not empty.
    pub fn get_filename(path: &str) -> (r: Option<String>)
        ensures
            crate::text::opt_view(r) == file_name(path@),
    {
        let k = find_after_last(path, '/');
        proof {
            lemma_after_last(path@, '/');
        }
        let n = path.unicode_len();
        if k < n {
            Some(substring(path, k, n))
        } else {
            None
        }
    }

    /// Converts the text of the manifest at `path`, chosen by its file name.
    pub fn convert(&self, path: &str, contents: String) -> (r: Result<ConverterOutput, ConvertError>)
        ensures
            match r {
                Ok(o) => converted(path@, contents@) == Ok::<RecordView, ConvertError>(o@),
                Err(e) => converted(path@, contents@) == Err::<RecordView, ConvertError>(e),
            },
    {
        let name = match Converter::get_filename(path) {
            Some(n) => n,
            None => return Err(ConvertError::FileNotFound),
        };
        let kind = match SupportedFile::from_str(name.as_str()) {
            Ok(k) => k,
            Err(e) => return Err(e),
        };
        let p = String::from_str(path);
        match kind {
            SupportedFile::PackageJson => PackageJson::new().convert(p, contents),
            SupportedFile::ComposerJson => ComposerJson::new().convert(p, contents),
            SupportedFile::CargoToml => CargoToml::new().convert(p, contents),
        }
    }
}

/// The paths whose file name is that of a supported manifest, in order.
pub open spec fn config_paths(paths: Seq<String>) -> Seq<Seq<char>>
    decreases paths.len(),
{
    if paths.len() == 0 {
        Seq::empty()
    } else {
        let rest = config_paths(paths.drop_last());
        let p = paths.last()@;
        match file_name(p) {
            Some(name) => if file_kind(name) is Ok {
                rest.push(p)
            } else {
                rest
            },
            None => rest,
        }
    }
}

/// Picks out the manifests among the files of a project.
pub fn scan_configs(paths: &Vec<String>) -> (r: Vec<String>)
    ensures
        r@.map_values(|s: String| s@) == config_paths(paths@),
{
    let mut out: Vec<String> = Vec::new();
    let mut i: usize = 0;
    while i < paths.len()
        invariant
            i <= paths@.len(),
            out@.map_values(|s: String| s@) == config_paths(paths@.subrange(0, i as int)),
        decreases paths.len() - i,
    {
        let ghost before = out@;
        assert(paths@.subrange(0, i + 1).drop_last() =~= paths@.subrange(0, i as int));
        match Converter::get_filename(paths[i].as_str()) {
            Some(name) => {
                if SupportedFile::from_str(name.as_str()).is_ok() {
                    out.push(paths[i].clone());
                    assert(out@.map_values(|s: String| s@) =~= before.map_values(|s: String| s@).push(
                        paths@[i as int]@,
                    ));
                }
            },
            None => {},
        }
        i = i + 1;
    }
    assert(paths@.subrange(0, paths@.len() as int) =~= paths@);
    out
}

} // verus!
