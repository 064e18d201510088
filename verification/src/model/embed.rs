//! Embeds: the cards that messages can carry.

use vstd::prelude::*;

verus! {

/// An embed.
#[derive(Debug, Clone)]
pub struct Embed {
    pub title: Option<String>,
    /// rich, image, video, gifv, article, link or poll_result.
    pub kind: String,
    pub description: Option<String>,
    pub url: Option<String>,
    pub timestamp: Option<String>,
    pub color: Option<u32>,
    pub footer: Option<EmbedFooter>,
    pub image: Option<EmbedImage>,
    pub thumbnail: Option<EmbedThumbnail>,
    pub video: Option<EmbedVideo>,
    pub provider: Option<EmbedProvider>,
    pub author: Option<EmbedAuthor>,
    /// At most 25.
    pub fields: Vec<EmbedField>,
}

/// The line under an embed.
#[derive(Debug, Clone)]
pub struct EmbedFooter {
    pub text: String,
    pub icon_url: Option<String>,
    pub proxy_icon_url: Option<String>,
}

/// The picture of an embed.
#[derive(Debug, Clone)]
pub struct EmbedImage {
    pub name: String,
    pub url: String,
}

/// The small picture of an embed.
#[derive(Debug, Clone)]
pub struct EmbedThumbnail {
    pub url: String,
    pub proxy_url: Option<String>,
    pub height: Option<u64>,
    pub width: Option<u64>,
}

/// The video of an embed.
#[derive(Debug, Clone)]
pub struct EmbedVideo {
    pub url: String,
    pub proxy_url: Option<String>,
    pub height: u64,
    pub width: u64,
}

/// Where an embed comes from.
#[derive(Debug, Clone)]
pub struct EmbedProvider {
    pub name: String,
    pub url: String,
}

/// Who an embed is by.
#[derive(Debug, Clone)]
pub struct EmbedAuthor {
    pub name: String,
    pub url: Option<String>,
    pub icon_url: Option<String>,
    pub proxy_icon_url: Option<String>,
}

/// One named value of an embed.
#[derive(Debug, Clone)]
pub struct EmbedField {
    pub name: String,
    pub value: String,
    pub inline: bool,
}

} // verus!
