//! Scoop packages as depy sees them, and how they are read from a `depy.json`
//! document.
//!
//! A `depy.json` document is an array of objects, each with the string members
//! `bucket_url`, `bucket_name`, `name` and `version`.
use vstd::prelude::*;
use crate::json::{JsonData, JsonValue, member, string_of_json};
use crate::text::{lowercase, same_text, to_lowercase};

pub mod error;

use error::PackageError;

verus! {

/// A scoop package: which bucket it comes from, its name and the wanted version.
#[derive(Debug)]
pub struct Package {
    pub bucket_url: String,
    pub bucket_name: String,
    pub name: String,
    pub version: String,
}

/// Two packages name the same program: the same bucket name and the same package
/// name, both compared after lower-casing.
pub open spec fn same_package(a: Package, b: Package) -> bool {
    lowercase(a.bucket_name@) == lowercase(b.bucket_name@) && lowercase(a.name@) == lowercase(
        b.name@,
    )
}

/// Naming the same program is an equivalence: reflexive, symmetric and transitive.
pub proof fn same_package_is_equivalence(a: Package, b: Package, c: Package)
    ensures
        same_package(a, a),
        same_package(a, b) ==> same_package(b, a),
        same_package(a, b) && same_package(b, c) ==> same_package(a, c),
{
}

/// Packages with exactly the same bucket name and name name the same program.
pub proof fn equal_packages_are_same(a: Package, b: Package)
    requires
        a.bucket_name@ == b.bucket_name@,
        a.name@ == b.name@,
    ensures
        same_package(a, b),
{
}

impl Clone for Package {
    fn clone(&self) -> (res: Self)
        ensures
            res == *self,
    {
        Package {
            bucket_url: self.bucket_url.clone(),
            bucket_name: self.bucket_name.clone(),
            name: self.name.clone(),
            version: self.version.clone(),
        }
    }
}

impl PartialEq for Package {
    fn eq(&self, other: &Package) -> (res: bool) {
        let a = to_lowercase(self.bucket_name.as_str());
        let b = to_lowercase(other.bucket_name.as_str());
        let c = to_lowercase(self.name.as_str());
        let d = to_lowercase(other.name.as_str());
        a == b && c == d
    }
}

impl vstd::std_specs::cmp::PartialEqSpecImpl for Package {
    open spec fn obeys_eq_spec() -> bool {
        true
    }

    open spec fn eq_spec(&self, other: &Package) -> bool {
        same_package(*self, *other)
    }
}

impl Eq for Package {

}

impl Package {
    /// Exact comparison of the bucket name and the package name (no lower-casing);
    /// the bucket url and the version are not compared.
    pub fn equal(&self, other: &Package) -> (res: bool)
        ensures
            res == (self.bucket_name@ == other.bucket_name@ && self.name@ == other.name@),
    {
        same_text(self.bucket_name.as_str(), other.bucket_name.as_str()) && same_text(
            self.name.as_str(),
            other.name.as_str(),
        )
    }
}

/// The string member `key` of `v`, if `v` is an object whose member `key` is a string.
pub open spec fn string_member(v: JsonValue, key: Seq<char>) -> Option<Seq<char>> {
    match member(v, key) {
        Some(m) => string_of_json(m),
        None => None,
    }
}

/// The first check a package fails, in the order in which they are made: the
/// package is an object, then `bucket_url`, `bucket_name`, `name` and `version`
/// are present strings.
pub open spec fn package_error(v: JsonValue) -> Option<PackageError> {
    if !(v.data is Object) {
        Some(PackageError::PackageStructureError)
    } else if string_member(v, "bucket_url"@) is None {
        Some(PackageError::BucketUrlFormatError)
    } else if string_member(v, "bucket_name"@) is None {
        Some(PackageError::BucketNameFormatError)
    } else if string_member(v, "name"@) is None {
        Some(PackageError::NameFormatError)
    } else if string_member(v, "version"@) is None {
        Some(PackageError::VersionFormatError)
    } else {
        None
    }
}

/// `p` holds the four string members of `v`.
pub open spec fn package_from(p: Package, v: JsonValue) -> bool {
    &&& Some(p.bucket_url@) == string_member(v, "bucket_url"@)
    &&& Some(p.bucket_name@) == string_member(v, "bucket_name"@)
    &&& Some(p.name@) == string_member(v, "name"@)
    &&& Some(p.version@) == string_member(v, "version"@)
}

/// The error of the first package of `items` that fails a check.
pub open spec fn first_package_error(items: Seq<JsonValue>) -> Option<PackageError>
    decreases items.len(),
{
    if items.len() == 0 {
        None
    } else if package_error(items[0]) is Some {
        package_error(items[0])
    } else {
        first_package_error(items.drop_first())
    }
}

/// The string member `key` of `v`, or `err` when it is missing or not a string.
fn read_string_member(v: &JsonValue, key: &str, err: PackageError) -> (res: Result<
    String,
    PackageError,
>)
    ensures
        match res {
            Ok(s) => string_member(*v, key@) == Some(s@),
            Err(e) => string_member(*v, key@) is None && e == err,
        },
{
    match v.get_member(key) {
        Some(field) => match &field.data {
            JsonData::Str(s) => Ok(s.clone()),
            _ => Err(err),
        },
        None => Err(err),
    }
}

/// Reads one package out of a JSON object with the string members `bucket_url`,
/// `bucket_name`, `name` and `version`.
pub fn single_package_from_json(package_json: &JsonValue) -> (res: Result<Package, PackageError>)
    ensures
        match res {
            Ok(p) => package_error(*package_json) is None && package_from(p, *package_json),
            Err(e) => package_error(*package_json) == Some(e),
        },
{
    match &package_json.data {
        JsonData::Object(_) => {},
        _ => {
            return Err(PackageError::PackageStructureError);
        },
    }
    let bucket_url = match read_string_member(
        package_json,
        "bucket_url",
        PackageError::BucketUrlFormatError,
    ) {
        Ok(s) => s,
        Err(e) => return Err(e),
    };
    let bucket_name = match read_string_member(
        package_json,
        "bucket_name",
        PackageError::BucketNameFormatError,
    ) {
        Ok(s) => s,
        Err(e) => return Err(e),
    };
    let name = match read_string_member(package_json, "name", PackageError::NameFormatError) {
        Ok(s) => s,
        Err(e) => return Err(e),
    };
    let version = match read_string_member(
        package_json,
        "version",
        PackageError::VersionFormatError,
    ) {
        Ok(s) => s,
        Err(e) => return Err(e),
    };
    Ok(Package { bucket_url, bucket_name, name, version })
}

proof fn lemma_first_error_step(items: Seq<JsonValue>, i: int)
    requires
        0 <= i < items.len(),
    ensures
        first_package_error(items.skip(i)) == if package_error(items[i]) is Some {
            package_error(items[i])
        } else {
            first_package_error(items.skip(i + 1))
        },
{
    assert(items.skip(i)[0] == items[i]);
    assert(items.skip(i).drop_first() =~= items.skip(i + 1));
}

/// Reads the packages of a `depy.json` document, which must be an array of
/// package objects; the first package that cannot be read decides the error.
pub fn multiple_packages_from_json(json: &JsonValue) -> (res: Result<Vec<Package>, PackageError>)
    ensures
        match json.data {
            JsonData::Array(items) => match res {
                Ok(ps) => first_package_error(items@) is None && ps.len() == items.len() && (
                forall|i: int| 0 <= i < ps.len() ==> package_from(#[trigger] ps@[i], items@[i])),
                Err(e) => first_package_error(items@) == Some(e),
            },
            _ => res == Err::<Vec<Package>, PackageError>(PackageError::PacakgeFormatError),
        },
{
    match &json.data {
        JsonData::Array(items) => {
            let mut out: Vec<Package> = Vec::new();
            let mut i: usize = 0;
            assert(items@.skip(0) =~= items@);
            while i < items.len()
                invariant
                    json.data == JsonData::Array(*items),
                    i <= items@.len(),
                    out@.len() == i,
                    first_package_error(items@) == first_package_error(items@.skip(i as int)),
                    forall|k: int| 0 <= k < i ==> package_from(#[trigger] out@[k], items@[k]),
                decreases items.len() - i,
            {
                proof {
                    lemma_first_error_step(items@, i as int);
                }
                match single_package_from_json(&items[i]) {
                    Ok(p) => out.push(p),
                    Err(e) => {
                        return Err(e);
                    },
                }
                i = i + 1;
            }
            assert(items@.skip(i as int) =~= Seq::<JsonValue>::empty());
            Ok(out)
        },
        _ => Err(PackageError::PacakgeFormatError),
    }
}

} // verus!
