//! The configuration of a rotation, read from the tags of the secret.
use vstd::prelude::*;
use vstd::std_specs::convert::TryFromSpecImpl;
use crate::describe::{Tag, TagView, tag_views};
use crate::error::{RotatorError, RotatorErrorView, RotatorResult};
use crate::text::{joined, opt_text, owned, quote, quoted, same};

verus! {

/// The tag that names the kind of resource behind a secret.
pub const RESOURCE_TYPE_TAG: &'static str = "resourceType";

/// The tag that names the service a credential is bound to.
pub const SERVICE_NAME_TAG: &'static str = "serviceName";

/// The tag that names the user a credential belongs to.
pub const USER_NAME_TAG: &'static str = "userName";

/// What a resource-type tag must say for a service credential.
pub const SERVICE_CREDENTIAL: &'static str = "ServiceCredential";

/// The kinds of resource whose secrets this library rotates.
#[derive(Debug, Copy, Clone, PartialEq, Eq, Structural)]
pub enum ResourceType {
    ServiceSpecificCredential,
}

/// A resource-type tag that names no known kind; it holds the reason.
#[derive(Debug, Clone, PartialEq)]
pub struct ResourceTypeParseError(pub String);

impl View for ResourceTypeParseError {
    type V = Seq<char>;

    open spec fn view(&self) -> Seq<char> {
        self.0@
    }
}

/// The reason given for a resource-type tag that says `value`.
pub open spec fn invalid_resource_type_text(value: Seq<char>) -> Seq<char> {
    "invalid resource type '"@ + value + "'"@
}

/// What a resource-type tag that says `value` is read as.
pub open spec fn resource_type_of(value: Seq<char>) -> Result<ResourceType, Seq<char>> {
    if value == SERVICE_CREDENTIAL@ {
        Ok(ResourceType::ServiceSpecificCredential)
    } else {
        Err(invalid_resource_type_text(value))
    }
}

impl View for ResourceType {
    type V = ResourceType;

    open spec fn view(&self) -> ResourceType {
        *self
    }
}

impl<'a> TryFrom<&'a str> for ResourceType {
    type Error = ResourceTypeParseError;

    /// Reads the value of a resource-type tag.
    fn try_from(value: &'a str) -> (r: Result<ResourceType, ResourceTypeParseError>)
        ensures
            match r {
                Ok(kind) => resource_type_of(value@) == Ok::<ResourceType, Seq<char>>(kind),
                Err(e) => resource_type_of(value@) == Err::<ResourceType, Seq<char>>(e@),
            },
    {
        if same(value, SERVICE_CREDENTIAL) {
            Ok(ResourceType::ServiceSpecificCredential)
        } else {
            let start = joined("invalid resource type '", value);
            Err(ResourceTypeParseError(joined(start.as_str(), "'")))
        }
    }
}

impl<'a> TryFromSpecImpl<&'a str> for ResourceType {
    open spec fn obeys_try_from_spec() -> bool {
        false
    }

    open spec fn try_from_spec(value: &'a str) -> Result<ResourceType, ResourceTypeParseError> {
        arbitrary()
    }
}

/// The diagnostic text of a [`ResourceTypeParseError`] that holds `reason`,
/// as `{:?}` writes it: the name of the type, then the reason as [`quoted`]
/// shows it, in parentheses.
pub open spec fn parse_error_debug(reason: Seq<char>) -> Seq<char> {
    "ResourceTypeParseError("@ + quoted(reason) + ")"@
}

impl ResourceTypeParseError {
    /// The error as diagnostic text.
    pub fn debug_text(&self) -> (r: String)
        ensures
            r@ == parse_error_debug(self@),
    {
        let shown = quote(self.0.as_str());
        let start = joined("ResourceTypeParseError(", shown.as_str());
        joined(start.as_str(), ")")
    }
}

/// A type that the value of a tag can be read as.
pub trait TagValue: Sized + View {
    /// What a tag that says `value` is read as, or the diagnostic text of the
    /// reason why it cannot be read.
    spec fn read(value: Seq<char>) -> Result<Self::V, Seq<char>>;

    /// Reads the value of a tag.
    fn parse(value: &str) -> (r: Result<Self, String>)
        ensures
            match r {
                Ok(v) => Self::read(value@) == Ok::<Self::V, Seq<char>>(v@),
                Err(m) => Self::read(value@) == Err::<Self::V, Seq<char>>(m@),
            },
    ;
}

impl TagValue for ResourceType {
    open spec fn read(value: Seq<char>) -> Result<ResourceType, Seq<char>> {
        match resource_type_of(value) {
            Ok(kind) => Ok(kind),
            Err(reason) => Err(parse_error_debug(reason)),
        }
    }

    fn parse(value: &str) -> (r: Result<ResourceType, String>) {
        match ResourceType::try_from(value) {
            Ok(kind) => Ok(kind),
            Err(e) => Err(e.debug_text()),
        }
    }
}

impl TagValue for String {
    open spec fn read(value: Seq<char>) -> Result<Seq<char>, Seq<char>> {
        Ok(value)
    }

    fn parse(value: &str) -> (r: Result<String, String>) {
        Ok(owned(value))
    }
}

/// The first of `tags` whose key is `name`.
pub open spec fn first_tag(tags: Seq<TagView>, name: Seq<char>) -> Option<TagView>
    decreases tags.len(),
{
    if tags.len() == 0 {
        None
    } else if tags[0].key == Some(name) {
        Some(tags[0])
    } else {
        first_tag(tags.drop_first(), name)
    }
}

/// What the tag `name` of a secret says, read as a `T`: nothing where no tag
/// has that key, or the first that has it holds no value.
pub open spec fn tag_value<T: TagValue>(
    secret_id: Seq<char>,
    tags: Seq<TagView>,
    name: Seq<char>,
) -> Result<Option<T::V>, RotatorErrorView> {
    match first_tag(tags, name) {
        Some(tag) => match tag.value {
            Some(value) => match T::read(value) {
                Ok(v) => Ok(Some(v)),
                Err(message) => Err(RotatorErrorView::SerialisationError { secret_id, message }),
            },
            None => Ok(None),
        },
        None => Ok(None),
    }
}

/// What the tag `name` of a secret says, where it must say something.
pub open spec fn required_tag_value<T: TagValue>(
    secret_id: Seq<char>,
    tags: Seq<TagView>,
    name: Seq<char>,
) -> Result<T::V, RotatorErrorView> {
    match tag_value::<T>(secret_id, tags, name) {
        Ok(Some(v)) => Ok(v),
        Ok(None) => Err(RotatorErrorView::MissingTag { secret_id, tag_name: name }),
        Err(e) => Err(e),
    }
}

/// The configuration that the tags of a secret give. The resource type is
/// read first, then the service, then the user.
pub open spec fn config_of(secret_id: Seq<char>, tags: Option<Seq<TagView>>) -> Result<
    ConfigView,
    RotatorErrorView,
> {
    match tags {
        None => Err(RotatorErrorView::MissingTags { secret_id }),
        Some(tags) => match required_tag_value::<ResourceType>(
            secret_id,
            tags,
            RESOURCE_TYPE_TAG@,
        ) {
            Err(e) => Err(e),
            Ok(resource_type) => match tag_value::<String>(secret_id, tags, SERVICE_NAME_TAG@) {
                Err(e) => Err(e),
                Ok(service_name) => match tag_value::<String>(secret_id, tags, USER_NAME_TAG@) {
                    Err(e) => Err(e),
                    Ok(user_name) => Ok(
                        ConfigView { secret_id, resource_type, user_name, service_name },
                    ),
                },
            },
        },
    }
}

/// What the rotation of one secret is configured to do.
#[derive(Debug, Clone, PartialEq)]
pub struct Config {
    pub secret_id: String,
    pub resource_type: ResourceType,
    pub user_name: Option<String>,
    pub service_name: Option<String>,
}

/// A [`Config`] as specifications see it: every string as its characters.
pub struct ConfigView {
    pub secret_id: Seq<char>,
    pub resource_type: ResourceType,
    pub user_name: Option<Seq<char>>,
    pub service_name: Option<Seq<char>>,
}

impl View for Config {
    type V = ConfigView;

    open spec fn view(&self) -> ConfigView {
        ConfigView {
            secret_id: self.secret_id@,
            resource_type: self.resource_type,
            user_name: opt_text(self.user_name),
            service_name: opt_text(self.service_name),
        }
    }
}

impl Config {
    /// The configuration of the rotation of `secret_id`, read from its tags.
    /// A secret without tags is a [`RotatorError::MissingTags`]; one without
    /// a resource type is a [`RotatorError::MissingTag`]; a resource type
    /// that names no known kind is a [`RotatorError::SerialisationError`].
    pub fn new_for_secret(secret_id: &str, tags: Option<Vec<Tag>>) -> (r: RotatorResult<Config>)
        ensures
            crate::error::result_view(r) == config_of(
                secret_id@,
                match tags {
                    Some(tags) => Some(tag_views(tags@)),
                    None => None,
                },
            ),
    {
        let tags = match tags {
            Some(tags) => tags,
            None => {
                return Err(RotatorError::MissingTags { secret_id: owned(secret_id) });
            },
        };
        let resource_type = match Self::get_required_tag::<ResourceType>(
            secret_id,
            &tags,
            RESOURCE_TYPE_TAG,
        ) {
            Ok(v) => v,
            Err(e) => {
                return Err(e);
            },
        };
        let service_name = match Self::get_tag::<String>(secret_id, &tags, SERVICE_NAME_TAG) {
            Ok(v) => v,
            Err(e) => {
                return Err(e);
            },
        };
        let user_name = match Self::get_tag::<String>(secret_id, &tags, USER_NAME_TAG) {
            Ok(v) => v,
            Err(e) => {
                return Err(e);
            },
        };
        Ok(Config { secret_id: owned(secret_id), resource_type, user_name, service_name })
    }

    /// What the tag `name` says, where it must say something: as
    /// [`Config::get_tag`], but a tag that is absent or holds no value is a
    /// [`RotatorError::MissingTag`].
    pub fn get_required_tag<T: TagValue>(secret_id: &str, tags: &Vec<Tag>, name: &str) -> (r:
        RotatorResult<T>)
        ensures
            crate::error::result_view(r) == required_tag_value::<T>(
                secret_id@,
                tag_views(tags@),
                name@,
            ),
    {
        match Self::get_tag::<T>(secret_id, tags, name) {
            Ok(Some(v)) => Ok(v),
            Ok(None) => Err(
                RotatorError::MissingTag { secret_id: owned(secret_id), tag_name: owned(name) },
            ),
            Err(e) => Err(e),
        }
    }

    /// What the tag `name` says, read as a `T`. The first tag with that key
    /// decides: nothing where it holds no value, or where no tag has the key.
    /// A value that cannot be read is a [`RotatorError::SerialisationError`]
    /// with the reason's diagnostic text.
    pub fn get_tag<T: TagValue>(secret_id: &str, tags: &Vec<Tag>, name: &str) -> (r: RotatorResult<
        Option<T>,
    >)
        ensures
            match r {
                Ok(Some(v)) => tag_value::<T>(secret_id@, tag_views(tags@), name@) == Ok::<
                    Option<T::V>,
                    RotatorErrorView,
                >(Some(v@)),
                Ok(None) => tag_value::<T>(secret_id@, tag_views(tags@), name@) == Ok::<
                    Option<T::V>,
                    RotatorErrorView,
                >(None),
                Err(e) => tag_value::<T>(secret_id@, tag_views(tags@), name@) == Err::<
                    Option<T::V>,
                    RotatorErrorView,
                >(e@),
            },
    {
        let wanted = owned(name);
        let ghost all = tag_views(tags@);
        let mut i: usize = 0;
        assert(all.skip(0) =~= all);
        while i < tags.len()
            invariant
                i <= tags.len(),
                wanted@ == name@,
                all == tag_views(tags@),
                first_tag(all, name@) == first_tag(all.skip(i as int), name@),
            decreases tags.len() - i,
        {
            let ghost rest = all.skip(i as int);
            assert(rest[0] == all[i as int]);
            assert(rest.drop_first() =~= all.skip(i + 1));
            let found = match &tags[i].key {
                Some(key) => *key == wanted,
                None => false,
            };
            if found {
                assert(first_tag(all, name@) == Some(all[i as int]));
                return match &tags[i].value {
                    Some(value) => match T::parse(value.as_str()) {
                        Ok(v) => Ok(Some(v)),
                        Err(message) => Err(
                            RotatorError::SerialisationError {
                                secret_id: owned(secret_id),
                                message,
                            },
                        ),
                    },
                    None => Ok(None),
                };
            }
            i += 1;
        }
        assert(all.skip(i as int).len() == 0);
        Ok(None)
    }
}

} // verus!
