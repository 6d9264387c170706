//! What the secret store says of a secret: whether it rotates, its tags, and
//! which version carries which stage labels.
use vstd::prelude::*;
use crate::error::{RotatorError, RotatorErrorView, RotatorResult};
use crate::exchange::{Fault, FaultKind, FaultView, described_view};
use crate::text::{opt_text, owned, texts};

verus! {

/// The label of the version in active use.
pub const CURRENT: &'static str = "CURRENT";

/// The label of the version that a rotation is bringing in.
pub const PENDING: &'static str = "PENDING";

/// One tag of a secret. The store allows both sides to be absent.
#[derive(Debug, Clone, PartialEq)]
pub struct Tag {
    pub key: Option<String>,
    pub value: Option<String>,
}

/// A [`Tag`] as specifications see it: every string as its characters.
pub struct TagView {
    pub key: Option<Seq<char>>,
    pub value: Option<Seq<char>>,
}

impl View for Tag {
    type V = TagView;

    open spec fn view(&self) -> TagView {
        TagView { key: opt_text(self.key), value: opt_text(self.value) }
    }
}

/// The views of a list of tags.
pub open spec fn tag_views(tags: Seq<Tag>) -> Seq<TagView> {
    Seq::new(tags.len(), |i: int| tags[i]@)
}

/// One version of a secret with the stage labels it carries.
#[derive(Debug, Clone, PartialEq)]
pub struct VersionStages {
    pub version_id: String,
    pub stages: Vec<String>,
}

impl View for VersionStages {
    type V = (Seq<char>, Seq<Seq<char>>);

    open spec fn view(&self) -> (Seq<char>, Seq<Seq<char>>) {
        (self.version_id@, texts(self.stages@))
    }
}

/// The versions of a secret, each with its stage labels, as a list of pairs.
pub type VersionStagesView = Seq<(Seq<char>, Seq<Seq<char>>)>;

/// No version occurs twice.
pub open spec fn distinct_versions(map: VersionStagesView) -> bool {
    forall|i: int, j: int| 0 <= i < j < map.len() ==> map[i].0 != map[j].0
}

/// Whether `version` is a key of `map`.
pub open spec fn has_version(map: VersionStagesView, version: Seq<char>) -> bool {
    exists|i: int| 0 <= i < map.len() && #[trigger] map[i].0 == version
}

/// Where `version` stands in `map`, if it is a key of it.
pub open spec fn version_index(map: VersionStagesView, version: Seq<char>) -> int {
    choose|i: int| 0 <= i < map.len() && #[trigger] map[i].0 == version
}

/// The stage labels that `map` gives for `version`.
pub open spec fn stages_of(map: VersionStagesView, version: Seq<char>) -> Option<
    Seq<Seq<char>>,
> {
    if has_version(map, version) {
        Some(map[version_index(map, version)].1)
    } else {
        None
    }
}

/// `map` with `version` bound to `stages`: in place where it was a key,
/// at the end where it was not.
pub open spec fn with_version(
    map: VersionStagesView,
    version: Seq<char>,
    stages: Seq<Seq<char>>,
) -> VersionStagesView {
    if has_version(map, version) {
        map.update(version_index(map, version), (version, stages))
    } else {
        map.push((version, stages))
    }
}

/// In a map without repeated versions, the entry at `i` is the one that its
/// version is looked up to.
pub proof fn lemma_version_at(map: VersionStagesView, i: int)
    requires
        distinct_versions(map),
        0 <= i < map.len(),
    ensures
        has_version(map, map[i].0),
        version_index(map, map[i].0) == i,
        stages_of(map, map[i].0) == Some(map[i].1),
{
    assert(map[i].0 == map[i].0);
    let k = version_index(map, map[i].0);
    assert(0 <= k < map.len() && map[k].0 == map[i].0);
    if k < i {
        assert(map[k].0 != map[i].0);
    } else if i < k {
        assert(map[i].0 != map[k].0);
    }
}

/// The map from version to stage labels that the store keeps for a secret.
/// No version occurs in it twice; the order of its entries is the order in
/// which they were first inserted.
#[derive(Debug, PartialEq)]
pub struct VersionStageMap {
    entries: Vec<VersionStages>,
}

impl View for VersionStageMap {
    type V = VersionStagesView;

    closed spec fn view(&self) -> VersionStagesView {
        Seq::new(self.entries@.len(), |i: int| self.entries@[i]@)
    }
}

impl VersionStageMap {
    #[verifier::type_invariant]
    spec fn well_formed(self) -> bool {
        distinct_versions(self@)
    }

    /// The empty map.
    pub fn new() -> (m: VersionStageMap)
        ensures
            m@ == VersionStagesView::empty(),
    {
        let m = VersionStageMap { entries: Vec::new() };
        assert(m@ =~= VersionStagesView::empty());
        m
    }

    /// How many versions the map holds.
    pub fn len(&self) -> (n: usize)
        ensures
            n == self@.len(),
            distinct_versions(self@),
    {
        proof {
            use_type_invariant(self);
        }
        self.entries.len()
    }

    /// The entry at position `i`.
    pub fn entry(&self, i: usize) -> (e: &VersionStages)
        requires
            i < self@.len(),
        ensures
            e@ == self@[i as int],
    {
        &self.entries[i]
    }

    /// The stage labels of `version_id`, if the map has that version.
    pub fn get(&self, version_id: &str) -> (r: Option<&Vec<String>>)
        ensures
            match r {
                Some(stages) => stages_of(self@, version_id@) == Some(texts(stages@)),
                None => stages_of(self@, version_id@) is None,
            },
    {
        proof {
            use_type_invariant(self);
        }
        let wanted = crate::text::owned(version_id);
        let mut i: usize = 0;
        while i < self.entries.len()
            invariant
                i <= self.entries.len(),
                wanted@ == version_id@,
                distinct_versions(self@),
                forall|j: int| 0 <= j < i ==> self@[j].0 != version_id@,
            decreases self.entries.len() - i,
        {
            if self.entries[i].version_id == wanted {
                proof {
                    lemma_version_at(self@, i as int);
                }
                return Some(&self.entries[i].stages);
            }
            i += 1;
        }
        None
    }

    /// Binds `version_id` to `stages`, replacing what it was bound to.
    pub fn insert(&mut self, version_id: String, stages: Vec<String>)
        ensures
            final(self)@ == with_version(old(self)@, version_id@, texts(stages@)),
    {
        proof {
            use_type_invariant(&*self);
        }
        let ghost before = self@;
        let mut taken = VersionStageMap::new();
        std::mem::swap(self, &mut taken);
        let mut entries = taken.entries;
        let mut i: usize = 0;
        while i < entries.len()
            invariant
                i <= entries.len(),
                distinct_versions(before),
                before == old(self)@,
                before == Seq::new(entries@.len(), |k: int| entries@[k]@),
                forall|j: int| 0 <= j < i ==> before[j].0 != version_id@,
            decreases entries.len() - i,
        {
            if entries[i].version_id == version_id {
                proof {
                    assert(before[i as int].0 == version_id@);
                    lemma_version_at(before, i as int);
                }
                entries.set(i, VersionStages { version_id, stages });
                let ghost after = Seq::new(entries@.len(), |k: int| entries@[k]@);
                assert(after =~= before.update(i as int, (version_id@, texts(stages@))));
                assert(distinct_versions(after)) by {
                    assert forall|a: int, b: int| 0 <= a < b < after.len() implies after[a].0
                        != after[b].0 by {
                        assert(after[a].0 == before[a].0);
                        assert(after[b].0 == before[b].0);
                    }
                }
                let m = VersionStageMap { entries };
                assert(m@ == after);
                *self = m;
                return ;
            }
            i += 1;
        }
        entries.push(VersionStages { version_id, stages });
        let ghost after = Seq::new(entries@.len(), |k: int| entries@[k]@);
        assert(after =~= before.push((version_id@, texts(stages@))));
        assert(distinct_versions(after)) by {
            assert forall|a: int, b: int| 0 <= a < b < after.len() implies after[a].0
                != after[b].0 by {
                if b < before.len() {
                    assert(after[a].0 == before[a].0);
                    assert(after[b].0 == before[b].0);
                }
            }
        }
        let m = VersionStageMap { entries };
        assert(m@ == after);
        *self = m;
    }
}

/// What the store says of a secret.
#[derive(Debug, PartialEq)]
pub struct SecretDescription {
    pub rotation_enabled: Option<bool>,
    pub tags: Option<Vec<Tag>>,
    pub version_ids_to_stages: Option<VersionStageMap>,
}

/// A [`SecretDescription`] as specifications see it: every string as its characters.
pub struct SecretDescriptionView {
    pub rotation_enabled: Option<bool>,
    pub tags: Option<Seq<TagView>>,
    pub version_ids_to_stages: Option<VersionStagesView>,
}

impl View for SecretDescription {
    type V = SecretDescriptionView;

    open spec fn view(&self) -> SecretDescriptionView {
        SecretDescriptionView {
            rotation_enabled: self.rotation_enabled,
            tags: match self.tags {
                Some(tags) => Some(tag_views(tags@)),
                None => None,
            },
            version_ids_to_stages: match self.version_ids_to_stages {
                Some(map) => Some(map@),
                None => None,
            },
        }
    }
}

/// What the store's answer to a request for a description amounts to.
pub open spec fn described(
    secret_id: Seq<char>,
    answer: Result<SecretDescriptionView, FaultView>,
) -> Result<SecretDescriptionView, RotatorErrorView> {
    match answer {
        Ok(description) => Ok(description),
        Err(fault) => Err(
            match fault.kind {
                FaultKind::ResourceNotFound => RotatorErrorView::SecretNotFound {
                    secret_id,
                    message: fault.message,
                },
                _ => RotatorErrorView::DescribeSecretError(fault.debug),
            },
        ),
    }
}

/// Reads the store's answer to a request for the description of
/// `secret_id`. That the store does not have the secret is a
/// [`RotatorError::SecretNotFound`]; every other refusal is a
/// [`RotatorError::DescribeSecretError`].
pub fn describe_secret(secret_id: &str, answer: Result<SecretDescription, Fault>) -> (r:
    RotatorResult<SecretDescription>)
    ensures
        crate::error::result_view(r) == described(secret_id@, described_view(answer)),
{
    match answer {
        Ok(description) => Ok(description),
        Err(fault) => match fault.kind {
            FaultKind::ResourceNotFound => Err(
                RotatorError::SecretNotFound {
                    secret_id: owned(secret_id),
                    message: fault.message,
                },
            ),
            _ => Err(RotatorError::DescribeSecretError(fault.debug)),
        },
    }
}

} // verus!
