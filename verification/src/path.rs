//! The programs a scoop manifest's `bin` entry exposes.
//!
//! A `bin` entry is either a path, or an array whose first element is the path,
//! whose second element (if any) is the alias to expose it under, and whose
//! further elements are arguments to pass to it.
use vstd::prelude::*;
use crate::json::{JsonData, JsonValue, string_of_json};
use crate::text::join3;

verus! {

/// A program exposed by a manifest: its path, an optional alias and optional
/// arguments (separated by single spaces).
#[derive(Debug, PartialEq, Eq)]
pub struct Path {
    pub path: String,
    pub alias: Option<String>,
    pub args: Option<String>,
}

/// Every element of `items` is a JSON string.
pub open spec fn all_strings(items: Seq<JsonValue>) -> bool {
    forall|i: int| 0 <= i < items.len() ==> (#[trigger] items[i]).data is Str
}

/// A `bin` entry that can be read: a string, or a non-empty array of strings.
pub open spec fn bin_entry_readable(v: JsonValue) -> bool {
    match v.data {
        JsonData::Str(_) => true,
        JsonData::Array(items) => items.len() >= 1 && all_strings(items@),
        _ => false,
    }
}

/// The text of a JSON string (empty for anything else).
pub open spec fn text_of(v: JsonValue) -> Seq<char> {
    match string_of_json(v) {
        Some(s) => s,
        None => Seq::empty(),
    }
}

/// The given strings separated by single spaces.
pub open spec fn spaced(items: Seq<JsonValue>) -> Seq<char>
    decreases items.len(),
{
    if items.len() == 0 {
        Seq::empty()
    } else if items.len() == 1 {
        text_of(items[0])
    } else {
        spaced(items.drop_last()) + " "@ + text_of(items.last())
    }
}

/// `p` is the program that the readable `bin` entry `v` describes.
pub open spec fn path_of(p: Path, v: JsonValue) -> bool {
    match v.data {
        JsonData::Str(s) => p.path@ == s@ && p.alias is None && p.args is None,
        JsonData::Array(items) => {
            &&& p.path@ == text_of(items@[0])
            &&& (items.len() >= 2 ==> (p.alias matches Some(a) && a@ == text_of(items@[1])))
            &&& (items.len() < 2 ==> p.alias is None)
            &&& (items.len() > 2 ==> (p.args matches Some(a) && a@ == spaced(items@.skip(2))))
            &&& (items.len() <= 2 ==> p.args is None)
        },
        _ => false,
    }
}

impl Path {
    pub fn new(path: String, alias: Option<String>, args: Option<String>) -> (res: Path)
        ensures
            res.path == path,
            res.alias == alias,
            res.args == args,
    {
        Path { path, alias, args }
    }

    /// The program a `bin` entry describes.
    pub fn from_value(value: &JsonValue) -> (res: Path)
        requires
            bin_entry_readable(*value),
        ensures
            path_of(res, *value),
    {
        match &value.data {
            JsonData::Str(s) => Path::new(s.clone(), None, None),
            JsonData::Array(arr) => {
                let path = match &arr[0].data {
                    JsonData::Str(s) => s.clone(),
                    _ => {
                        proof {
                            assert(arr@[0].data is Str);
                        }
                        String::new()
                    },
                };
                let mut alias: Option<String> = None;
                if arr.len() >= 2 {
                    alias = match &arr[1].data {
                        JsonData::Str(s) => Some(s.clone()),
                        _ => {
                            proof {
                                assert(arr@[1].data is Str);
                            }
                            None
                        },
                    };
                }
                if arr.len() <= 2 {
                    return Path::new(path, alias, None);
                }
                let mut args = match &arr[2].data {
                    JsonData::Str(s) => s.clone(),
                    _ => {
                        proof {
                            assert(arr@[2].data is Str);
                        }
                        String::new()
                    },
                };
                let mut i: usize = 3;
                proof {
                    assert(arr@.subrange(2, 3).len() == 1);
                    assert(arr@.subrange(2, 3)[0] == arr@[2]);
                }
                while i < arr.len()
                    invariant
                        value.data == JsonData::Array(*arr),
                        all_strings(arr@),
                        3 <= i <= arr@.len(),
                        args@ == spaced(arr@.subrange(2, i as int)),
                    decreases arr.len() - i,
                {
                    let piece = match &arr[i].data {
                        JsonData::Str(s) => s.as_str(),
                        _ => {
                            proof {
                                assert(arr@[i as int].data is Str);
                            }
                            ""
                        },
                    };
                    proof {
                        let t = arr@.subrange(2, i + 1);
                        assert(t.drop_last() =~= arr@.subrange(2, i as int));
                        assert(t.last() == arr@[i as int]);
                    }
                    args = join3(args.as_str(), " ", piece);
                    i = i + 1;
                }
                proof {
                    assert(arr@.subrange(2, arr@.len() as int) =~= arr@.skip(2));
                }
                Path::new(path, alias, Some(args))
            },
            _ => {
                proof {
                    assert(false);
                }
                Path::new(String::new(), None, None)
            },
        }
    }

    /// The programs a manifest's `bin` value describes: one for a string, one per
    /// element for an array.
    pub fn bin_to_paths(value: &JsonValue) -> (res: Vec<Path>)
        requires
            value.data is Str || (value.data matches JsonData::Array(items) && forall|i: int|
                0 <= i < items@.len() ==> bin_entry_readable(#[trigger] items@[i])),
        ensures
            match value.data {
                JsonData::Array(items) => res.len() == items.len() && forall|i: int|
                    0 <= i < res.len() ==> path_of(#[trigger] res@[i], items@[i]),
                _ => res.len() == 1 && path_of(res@[0], *value),
            },
    {
        match &value.data {
            JsonData::Array(items) => {
                let mut out: Vec<Path> = Vec::new();
                let mut i: usize = 0;
                while i < items.len()
                    invariant
                        value.data == JsonData::Array(*items),
                        forall|k: int|
                            0 <= k < items@.len() ==> bin_entry_readable(#[trigger] items@[k]),
                        i <= items@.len(),
                        out@.len() == i,
                        forall|k: int| 0 <= k < i ==> path_of(#[trigger] out@[k], items@[k]),
                    decreases items.len() - i,
                {
                    out.push(Path::from_value(&items[i]));
                    i = i + 1;
                }
                out
            },
            _ => {
                let mut out: Vec<Path> = Vec::new();
                out.push(Path::from_value(value));
                out
            },
        }
    }
}

} // verus!
