//! Reading the `weight_map` of a sharded-weights index and choosing which
//! weight files to fetch.
use vstd::prelude::*;

verus! {

/// Name of the index that lists the shards of a sharded checkpoint.
pub const WEIGHT_INDEX_FILE: &'static str = "model.safetensors.index.json";

/// Name of the single weight file of an unsharded checkpoint.
pub const SINGLE_WEIGHT_FILE: &'static str = "model.safetensors";

/// What the `weight_map` entry of an index holds, as far as reading it needs:
/// either a JSON object, given by its values in order (`Some` for a string
/// value, `None` for any other value), or anything else.
#[derive(Clone, Debug)]
pub enum WeightMapValue {
    Object(Vec<Option<String>>),
    Other,
}

/// Why a `weight_map` could not be read.
#[derive(Clone, Copy, Debug, PartialEq, Eq, Structural)]
pub enum WeightMapError {
    NotAnObject,
}

impl WeightMapError {
    /// The error's text.
    pub fn message(&self) -> (res: String)
        ensures
            res@ == "Expected an object for weight_map"@,
    {
        "Expected an object for weight_map".to_owned()
    }
}

/// `x` is the text of one of `files`.
pub open spec fn names_contain(files: Seq<String>, x: Seq<char>) -> bool {
    exists|j: int| 0 <= j < files.len() && #[trigger] files[j]@ == x
}

/// `x` is one of the string values in `values`.
pub open spec fn values_contain(values: Seq<Option<String>>, x: Seq<char>) -> bool {
    exists|i: int| 0 <= i < values.len() && (#[trigger] values[i]) is Some && values[i]->0@ == x
}

/// No text occurs twice in `files`.
pub open spec fn distinct_names(files: Seq<String>) -> bool {
    forall|i: int, j: int| 0 <= i < j < files.len() ==> files[i]@ != files[j]@
}

/// `files` is the set of the string values of `values`: each once, nothing else.
pub open spec fn is_string_value_set(files: Seq<String>, values: Seq<Option<String>>) -> bool {
    &&& distinct_names(files)
    &&& forall|j: int| 0 <= j < files.len() ==> values_contain(values, #[trigger] files[j]@)
    &&& forall|i: int|
        0 <= i < values.len() && (#[trigger] values[i]) is Some ==> names_contain(
            files,
            values[i]->0@,
        )
}

fn contains_name(files: &Vec<String>, name: &String) -> (res: bool)
    ensures
        res == names_contain(files@, name@),
{
    let mut j: usize = 0;
    while j < files.len()
        invariant
            0 <= j <= files@.len(),
            forall|k: int| 0 <= k < j ==> files@[k]@ != name@,
        decreases files@.len() - j,
    {
        if files[j] == *name {
            assert(files@[j as int]@ == name@);
            return true;
        }
        j = j + 1;
    }
    false
}

/// The weight files a `weight_map` names: the set of its string values (other
/// values are skipped). A `weight_map` that is not an object is an error.
pub fn deserialize_weight_map(value: WeightMapValue) -> (res: Result<Vec<String>, WeightMapError>)
    ensures
        match value {
            WeightMapValue::Object(values) => res matches Ok(files) && is_string_value_set(
                files@,
                values@,
            ),
            WeightMapValue::Other => res == Err::<Vec<String>, WeightMapError>(
                WeightMapError::NotAnObject,
            ),
        },
{
    match value {
        WeightMapValue::Other => Err(WeightMapError::NotAnObject),
        WeightMapValue::Object(values) => {
            let mut files: Vec<String> = Vec::new();
            let mut i: usize = 0;
            while i < values.len()
                invariant
                    0 <= i <= values@.len(),
                    distinct_names(files@),
                    forall|j: int|
                        0 <= j < files@.len() ==> values_contain(values@, #[trigger] files@[j]@),
                    forall|k: int|
                        0 <= k < i && (#[trigger] values@[k]) is Some ==> names_contain(
                            files@,
                            values@[k]->0@,
                        ),
                decreases values@.len() - i,
            {
                let ghost old_files = files@;
                match &values[i] {
                    Some(name) => {
                        if !contains_name(&files, name) {
                            let copy = name.clone();
                            files.push(copy);
                            assert(files@[old_files.len() as int]@ == values@[i as int]->0@);
                            assert forall|j: int| 0 <= j < files@.len() implies values_contain(
                                values@,
                                #[trigger] files@[j]@,
                            ) by {
                                if j < old_files.len() {
                                    assert(files@[j] == old_files[j]);
                                } else {
                                    assert(values@[i as int] is Some && values@[i as int]->0@ == files@[j]@);
                                }
                            }
                            assert forall|k: int|
                                0 <= k < i + 1 && (#[trigger] values@[k]) is Some implies names_contain(
                                files@,
                                values@[k]->0@,
                            ) by {
                                if k < i {
                                    let jj = choose|jj: int|
                                        0 <= jj < old_files.len() && #[trigger] old_files[jj]@
                                            == values@[k]->0@;
                                    assert(files@[jj] == old_files[jj]);
                                } else {
                                    assert(files@[old_files.len() as int]@ == values@[k]->0@);
                                }
                            }
                        }
                    },
                    None => {},
                }
                i = i + 1;
            }
            Ok(files)
        },
    }
}

/// The weight files to fetch: those the index lists when it could be read,
/// otherwise the single unsharded file.
pub fn weight_files_to_fetch(listed: Option<Vec<String>>) -> (res: Vec<String>)
    ensures
        match listed {
            Some(files) => res@ == files@,
            None => res@.len() == 1 && res@[0]@ == SINGLE_WEIGHT_FILE@,
        },
{
    match listed {
        Some(files) => files,
        None => {
            let mut res: Vec<String> = Vec::new();
            res.push(SINGLE_WEIGHT_FILE.to_owned());
            res
        },
    }
}

} // verus!
