use vstd::prelude::*;

verus! {

/// Why a document of an instance could not be had.
#[derive(Debug, Clone, PartialEq, Eq)]
pub enum LoadError {
    /// No file of the instance directory ends with the suffix.
    MissingDocument(String),
    /// More than one file of the instance directory ends with the suffix.
    AmbiguousDocument(String),
    /// A document could not be read; holds its path.
    IoFailure(String),
    /// A document does not have the shape that the model requires.
    SchemaViolation(Defect),
    /// A train names a category that the catalog does not define.
    ReferenceViolation(String),
}

/// Where a decoded instance breaks a rule of the model.
#[derive(Debug, Clone, PartialEq, Eq)]
pub enum Defect {
    /// A position of `trains[train]` whose payload disagrees with its tag.
    PositionPayload { train: usize, position: usize },
    /// `blocks[block]` holds no resource.
    EmptyBlockResources { block: usize },
    /// A resource of `blocks[block]` without exactly one variant.
    BlockResourceVariant { block: usize, resource: usize },
    /// A resource of `slowdowns[slowdown]` without exactly one variant.
    SlowdownResourceVariant { slowdown: usize, resource: usize },
    /// The movement of `train` over `track` has no runtime info.
    EmptyRuntimeInfos { train: String, track: String },
}

/// `s` ends with `suffix`.
pub open spec fn ends_with(s: Seq<char>, suffix: Seq<char>) -> bool {
    suffix.len() <= s.len() && s.subrange(s.len() - suffix.len(), s.len() as int) == suffix
}

/// Tests whether `name` ends with `suffix`.
pub fn has_suffix(name: &String, suffix: &String) -> (r: bool)
    ensures
        r == ends_with(name@, suffix@),
{
    let n = name.as_str();
    let x = suffix.as_str();
    let nl = n.unicode_len();
    let xl = x.unicode_len();
    if xl > nl {
        return false;
    }
    let off = nl - xl;
    let mut i: usize = 0;
    while i < xl
        invariant
            xl == suffix@.len(),
            nl == name@.len(),
            off == nl - xl,
            xl <= nl,
            i <= xl,
            n@ == name@,
            x@ == suffix@,
            forall|j: int| 0 <= j < i ==> name@[off + j] == suffix@[j],
        decreases xl - i,
    {
        if n.get_char(off + i) != x.get_char(i) {
            proof {
                let sub = name@.subrange(off as int, nl as int);
                assert(sub[i as int] != suffix@[i as int]);
            }
            return false;
        }
        i = i + 1;
    }
    assert(name@.subrange(off as int, nl as int) =~= suffix@);
    true
}

/// Picks, among the file names of an instance directory, the one document
/// whose name ends with `suffix`: its index, or `MissingDocument` when none
/// does and `AmbiguousDocument` when several do.
pub fn select_document(names: &Vec<String>, suffix: &String) -> (r: Result<usize, LoadError>)
    ensures
        match r {
            Ok(i) => unique_match(names@, suffix@, i as int),
            Err(e) => selection_error(names@, suffix@, e),
        },
{
    let mut found: Option<usize> = None;
    let mut i: usize = 0;
    while i < names.len()
        invariant
            i <= names@.len(),
            match found {
                Some(k) => k < i && ends_with(names@[k as int]@, suffix@)
                    && forall|j: int| 0 <= j < i && j != k ==> !ends_with(names@[j]@, suffix@),
                None => forall|j: int| 0 <= j < i ==> !ends_with(names@[j]@, suffix@),
            },
        decreases names@.len() - i,
    {
        if has_suffix(&names[i], suffix) {
            match found {
                Some(k) => {
                    return Err(LoadError::AmbiguousDocument(suffix.clone()));
                },
                None => {
                    found = Some(i);
                },
            }
        }
        i = i + 1;
    }
    match found {
        Some(k) => Ok(k),
        None => Err(LoadError::MissingDocument(suffix.clone())),
    }
}

/// Suffix of the status document.
pub open spec fn status_suffix() -> Seq<char> {
    "status.json"@
}

/// Suffix of the train catalog document.
pub open spec fn train_info_suffix() -> Seq<char> {
    "TrainInfo.json"@
}

/// Suffix of the line movement document.
pub open spec fn line_movements_suffix() -> Seq<char> {
    "LineMovements.json"@
}

/// Suffix of the station movement document.
pub open spec fn station_movements_suffix() -> Seq<char> {
    "StationMovements.json"@
}

/// Exactly one name of `names` ends with `suffix`, the one at `i`.
pub open spec fn unique_match(names: Seq<String>, suffix: Seq<char>, i: int) -> bool {
    0 <= i < names.len() && ends_with(names[i]@, suffix)
        && forall|j: int| 0 <= j < names.len() && j != i ==> !ends_with(names[j]@, suffix)
}

/// Exactly one name of `names` ends with `suffix`.
pub open spec fn has_unique_match(names: Seq<String>, suffix: Seq<char>) -> bool {
    exists|i: int| unique_match(names, suffix, i)
}

/// Where the four documents of an instance stand in its list of file names.
#[derive(Debug, Clone, Copy, PartialEq, Eq)]
pub struct DocumentIndices {
    pub status: usize,
    pub train_info: usize,
    pub line_movements: usize,
    pub station_movements: usize,
}

/// The error of `select_document` for `suffix` when it does not find one match.
pub open spec fn selection_error(names: Seq<String>, suffix: Seq<char>, e: LoadError) -> bool {
    match e {
        LoadError::MissingDocument(s) => s@ == suffix
            && forall|j: int| 0 <= j < names.len() ==> !ends_with(names[j]@, suffix),
        LoadError::AmbiguousDocument(s) => s@ == suffix
            && exists|a: int, b: int| 0 <= a < b < names.len()
                && ends_with(names[a]@, suffix) && ends_with(names[b]@, suffix),
        _ => false,
    }
}

/// Finds the four documents of an instance among its file names, in the
/// order status, train catalog, line movements, station movements; the first
/// that is missing or ambiguous ends the search with its error.
pub fn locate_documents(names: &Vec<String>) -> (r: Result<DocumentIndices, LoadError>)
    ensures
        match r {
            Ok(d) => unique_match(names@, status_suffix(), d.status as int)
                && unique_match(names@, train_info_suffix(), d.train_info as int)
                && unique_match(names@, line_movements_suffix(), d.line_movements as int)
                && unique_match(names@, station_movements_suffix(), d.station_movements as int),
            Err(e) => {
                if !has_unique_match(names@, status_suffix()) {
                    selection_error(names@, status_suffix(), e)
                } else if !has_unique_match(names@, train_info_suffix()) {
                    selection_error(names@, train_info_suffix(), e)
                } else if !has_unique_match(names@, line_movements_suffix()) {
                    selection_error(names@, line_movements_suffix(), e)
                } else {
                    !has_unique_match(names@, station_movements_suffix())
                        && selection_error(names@, station_movements_suffix(), e)
                }
            },
        },
{
    let status = match select_document(names, &"status.json".to_owned()) {
        Ok(i) => i,
        Err(e) => {
            return Err(e);
        },
    };
    let train_info = match select_document(names, &"TrainInfo.json".to_owned()) {
        Ok(i) => i,
        Err(e) => {
            return Err(e);
        },
    };
    let line_movements = match select_document(names, &"LineMovements.json".to_owned()) {
        Ok(i) => i,
        Err(e) => {
            return Err(e);
        },
    };
    let station_movements = match select_document(names, &"StationMovements.json".to_owned()) {
        Ok(i) => i,
        Err(e) => {
            return Err(e);
        },
    };
    Ok(DocumentIndices { status, train_info, line_movements, station_movements })
}

} // verus!
