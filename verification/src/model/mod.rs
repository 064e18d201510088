//! The entities of the platform as plain data.

pub mod channel;
pub mod embed;
pub mod guild;
pub mod interaction;
pub mod message;
pub mod permissions;
pub mod poll;
pub mod reaction;
pub mod relationship;
pub mod role;
pub mod user;

pub use channel::{Channel, ChannelMention, ChannelType, ForumTag, ThreadMember, ThreadMetadata};
pub use embed::{
    Embed, EmbedAuthor, EmbedField, EmbedFooter, EmbedImage, EmbedProvider, EmbedThumbnail,
    EmbedVideo,
};
pub use guild::{Guild, GuildFeatures, Member, WelcomeScreen, WelcomeScreenChannel};
pub use interaction::{Interaction, InteractionType};
pub use message::{Message, Sticker};
pub use permissions::{PermissionOverwrite, PermissionOverwriteType, Permissions};
pub use poll::{Poll, PollAnswerCount, PollAnswerOption, PollMedia, PollResult};
pub use reaction::{Emoji, Reaction};
pub use relationship::{Relationship, RelationshipType};
pub use role::{Role, RoleColors, RoleTags};
pub use user::{
    ApplicationProfile, Avatar, AvatarDecoration, Badge, MutualGuild, Nameplate, PrimaryGuild,
    ProfileEffect, ProfileMetadata, User, UserProfile,
};
