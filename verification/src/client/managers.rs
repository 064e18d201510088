//! The addresses of the REST endpoints whose queries depend on what the
//! caller asks for. The managers are the names under which the endpoints
//! are grouped; the requests themselves are the caller's to make.

use vstd::prelude::*;
use vstd::string::*;
use crate::http::query::{
    append_limit, as_slice, bool_param, bool_str, bool_text, limit_suffix, number_param,
    opt_nat_u32, opt_nat_u8, opt_slice, opt_text, pair, pair_text, push_bool, push_number,
    push_text, query_text, text_param, widen_u32, widen_u8, with_query,
};
use crate::http::{api_prefix, api_url};

verus! {

/// The endpoints that concern users.
#[derive(Debug, Clone, Copy, Default)]
pub struct UsersManager;

/// The endpoints that concern guilds.
#[derive(Debug, Clone, Copy, Default)]
pub struct GuildsManager;

/// The endpoints that concern relationships.
#[derive(Debug, Clone, Copy, Default)]
pub struct RelationshipsManager;

/// The endpoints that concern channels.
#[derive(Debug, Clone, Copy, Default)]
pub struct ChannelsManager;

/// One `tag` parameter for each tag, in their order.
pub open spec fn tag_params(tags: Seq<Seq<char>>) -> Seq<Seq<char>> {
    Seq::new(tags.len(), |i: int| pair_text("tag"@, tags[i]))
}

fn push_tags(params: &mut Vec<String>, tags: &Option<Vec<String>>)
    ensures
        final(params).deep_view() == old(params).deep_view() + match *tags {
            Some(tags) => tag_params(tags.deep_view()),
            None => Seq::empty(),
        },
{
    let ghost head = params.deep_view();
    if let Some(tags) = tags {
        let mut i: usize = 0;
        assert(params.deep_view() =~= head + tag_params(tags.deep_view()).subrange(0, 0));
        while i < tags.len()
            invariant
                i <= tags.len(),
                params.deep_view() == head + tag_params(tags.deep_view()).subrange(0, i as int),
            decreases tags.len() - i,
        {
            let p = pair("tag", tags[i].as_str());
            let ghost before = params.deep_view();
            params.push(p);
            proof {
                let all = tag_params(tags.deep_view());
                assert(params.deep_view() =~= before + seq![all[i as int]]);
                assert(all.subrange(0, i + 1) =~= all.subrange(0, i as int) + seq![all[i as int]]);
                assert(params.deep_view() =~= head + all.subrange(0, i + 1));
            }
            i += 1;
        }
        proof {
            let all = tag_params(tags.deep_view());
            assert(all.subrange(0, tags.len() as int) =~= all);
        }
    } else {
        assert(params.deep_view() =~= head + Seq::<Seq<char>>::empty());
    }
}

/// What to search threads by. Every field is optional; a field that is left
/// out puts nothing in the query.
#[derive(Debug, Clone, Default)]
pub struct SearchThreadsParams {
    pub name: Option<String>,
    pub slop: Option<u8>,
    pub tags: Option<Vec<String>>,
    pub tag_setting: Option<String>,
    pub archived: Option<bool>,
    pub sort_by: Option<String>,
    pub sort_order: Option<String>,
    pub limit: Option<u8>,
    pub offset: Option<u32>,
    pub max_id: Option<String>,
    pub min_id: Option<String>,
}

impl SearchThreadsParams {
    /// The parameters of the query, in the order of the fields; each tag is
    /// a parameter of its own.
    pub open spec fn spec_query_params(self) -> Seq<Seq<char>> {
        text_param("name"@, opt_text(self.name)) + number_param("slop"@, opt_nat_u8(self.slop))
            + match self.tags {
            Some(tags) => tag_params(tags.deep_view()),
            None => Seq::empty(),
        } + text_param("tag_setting"@, opt_text(self.tag_setting)) + bool_param(
            "archived"@,
            self.archived,
        ) + text_param("sort_by"@, opt_text(self.sort_by)) + text_param(
            "sort_order"@,
            opt_text(self.sort_order),
        ) + number_param("limit"@, opt_nat_u8(self.limit)) + number_param(
            "offset"@,
            opt_nat_u32(self.offset),
        ) + text_param("max_id"@, opt_text(self.max_id)) + text_param(
            "min_id"@,
            opt_text(self.min_id),
        )
    }

    /// Lists the parameters of the query.
    pub fn query_params(&self) -> (params: Vec<String>)
        ensures
            params.deep_view() == self.spec_query_params(),
    {
        let mut params: Vec<String> = Vec::new();
        assert(params.deep_view() =~= Seq::<Seq<char>>::empty());
        push_text(&mut params, "name", as_slice(&self.name));
        assert(params.deep_view() =~= text_param("name"@, opt_text(self.name)));
        push_number(&mut params, "slop", widen_u8(self.slop));
        push_tags(&mut params, &self.tags);
        push_text(&mut params, "tag_setting", as_slice(&self.tag_setting));
        push_bool(&mut params, "archived", self.archived);
        push_text(&mut params, "sort_by", as_slice(&self.sort_by));
        push_text(&mut params, "sort_order", as_slice(&self.sort_order));
        push_number(&mut params, "limit", widen_u8(self.limit));
        push_number(&mut params, "offset", widen_u32(self.offset));
        push_text(&mut params, "max_id", as_slice(&self.max_id));
        push_text(&mut params, "min_id", as_slice(&self.min_id));
        params
    }
}

/// Which archived threads of a channel to list.
#[derive(Debug, Clone, Copy, PartialEq, Eq, Structural)]
pub enum ArchivedThreads {
    /// The public ones.
    Public,
    /// The private ones.
    Private,
    /// The private ones that the current user has joined.
    JoinedPrivate,
}

impl ArchivedThreads {
    /// The end of the endpoint for this list, behind the channel's id.
    pub open spec fn path(self) -> Seq<char> {
        match self {
            ArchivedThreads::Public => "/threads/archived/public"@,
            ArchivedThreads::Private => "/threads/archived/private"@,
            ArchivedThreads::JoinedPrivate => "/users/@me/threads/archived/private"@,
        }
    }
}

impl GuildsManager {
    /// The address that lists the members of a guild.
    pub open spec fn spec_members_url(guild_id: Seq<char>, limit: Option<u32>, after: Option<Seq<char>>) -> Seq<char> {
        api_prefix() + "/guilds/"@ + guild_id + "/members"@ + query_text(
            number_param("limit"@, opt_nat_u32(limit)) + text_param("after"@, after),
        )
    }

    /// The address that searches the members or the bans of a guild: the
    /// search text goes into the address as it is.
    pub open spec fn spec_search_url(guild_id: Seq<char>, what: Seq<char>, query: Seq<char>, limit: Option<nat>) -> Seq<char> {
        api_prefix() + "/guilds/"@ + guild_id + what + "/search?query="@ + query + limit_suffix(
            limit,
        )
    }

    /// Builds the address that lists the members of a guild, at most `limit`
    /// of them and only those after the member `after`.
    pub fn members_url(&self, guild_id: &str, limit: Option<u32>, after: Option<&str>) -> (url: String)
        ensures
            url@ == Self::spec_members_url(guild_id@, limit, opt_slice(after)),
    {
        let mut params: Vec<String> = Vec::new();
        assert(params.deep_view() =~= Seq::<Seq<char>>::empty());
        push_number(&mut params, "limit", widen_u32(limit));
        push_text(&mut params, "after", after);
        let mut path = String::from_str("/guilds/");
        path.append(guild_id);
        path.append("/members");
        let url = api_url(path.as_str());
        let full = with_query(url, &params);
        assert(full@ =~= Self::spec_members_url(guild_id@, limit, opt_slice(after)));
        full
    }

    /// Builds the address that searches the members of a guild by name.
    pub fn search_members_url(&self, guild_id: &str, query: &str, limit: Option<u32>) -> (url: String)
        ensures
            url@ == Self::spec_search_url(guild_id@, "/members"@, query@, opt_nat_u32(limit)),
    {
        let mut path = String::from_str("/guilds/");
        path.append(guild_id);
        path.append("/members");
        path.append("/search?query=");
        path.append(query);
        let mut url = api_url(path.as_str());
        append_limit(&mut url, widen_u32(limit));
        assert(url@ =~= Self::spec_search_url(guild_id@, "/members"@, query@, opt_nat_u32(limit)));
        url
    }

    /// Builds the address that searches the bans of a guild by name.
    pub fn search_bans_url(&self, guild_id: &str, query: &str, limit: Option<u8>) -> (url: String)
        ensures
            url@ == Self::spec_search_url(guild_id@, "/bans"@, query@, opt_nat_u8(limit)),
    {
        let mut path = String::from_str("/guilds/");
        path.append(guild_id);
        path.append("/bans");
        path.append("/search?query=");
        path.append(query);
        let mut url = api_url(path.as_str());
        append_limit(&mut url, widen_u8(limit));
        assert(url@ =~= Self::spec_search_url(guild_id@, "/bans"@, query@, opt_nat_u8(limit)));
        url
    }
}

impl ChannelsManager {
    /// The address that deletes a channel.
    pub open spec fn spec_delete_channel_url(channel_id: Seq<char>, silent: Option<bool>) -> Seq<char> {
        api_prefix() + "/channels/"@ + channel_id + match silent {
            Some(s) => "?silent="@ + bool_text(s),
            None => Seq::empty(),
        }
    }

    /// The address that lists archived threads: `?before=` and the time if
    /// one is given, then `&limit=` and the number if one is given.
    pub open spec fn spec_archived_threads_url(
        channel_id: Seq<char>,
        which: ArchivedThreads,
        before: Option<Seq<char>>,
        limit: Option<u8>,
    ) -> Seq<char> {
        api_prefix() + "/channels/"@ + channel_id + which.path() + match before {
            Some(b) => "?before="@ + b,
            None => Seq::empty(),
        } + limit_suffix(opt_nat_u8(limit))
    }

    /// The address that searches the threads of a channel.
    pub open spec fn spec_search_threads_url(channel_id: Seq<char>, params: SearchThreadsParams) -> Seq<char> {
        api_prefix() + "/channels/"@ + channel_id + "/threads/search"@ + query_text(
            params.spec_query_params(),
        )
    }

    /// Builds the address that deletes a channel, silently or not if the
    /// caller says which.
    pub fn delete_channel_url(&self, channel_id: &str, silent: Option<bool>) -> (url: String)
        ensures
            url@ == Self::spec_delete_channel_url(channel_id@, silent),
    {
        let mut path = String::from_str("/channels/");
        path.append(channel_id);
        let mut url = api_url(path.as_str());
        if let Some(s) = silent {
            url.append("?silent=");
            url.append(bool_str(s));
        }
        assert(url@ =~= Self::spec_delete_channel_url(channel_id@, silent));
        url
    }

    /// Builds the address that lists archived threads of a channel.
    pub fn archived_threads_url(
        &self,
        channel_id: &str,
        which: ArchivedThreads,
        before: Option<&str>,
        limit: Option<u8>,
    ) -> (url: String)
        ensures
            url@ == Self::spec_archived_threads_url(channel_id@, which, opt_slice(before), limit),
    {
        let mut path = String::from_str("/channels/");
        path.append(channel_id);
        match which {
            ArchivedThreads::Public => path.append("/threads/archived/public"),
            ArchivedThreads::Private => path.append("/threads/archived/private"),
            ArchivedThreads::JoinedPrivate => path.append("/users/@me/threads/archived/private"),
        }
        let mut url = api_url(path.as_str());
        if let Some(b) = before {
            url.append("?before=");
            url.append(b);
        }
        let ghost mid = url@;
        assert(mid =~= api_prefix() + "/channels/"@ + channel_id@ + which.path() + match opt_slice(
            before,
        ) {
            Some(b) => "?before="@ + b,
            None => Seq::empty(),
        });
        append_limit(&mut url, widen_u8(limit));
        url
    }

    /// Builds the address that searches the threads of a channel.
    pub fn search_threads_url(&self, channel_id: &str, params: &SearchThreadsParams) -> (url: String)
        ensures
            url@ == Self::spec_search_threads_url(channel_id@, *params),
    {
        let list = params.query_params();
        let mut path = String::from_str("/channels/");
        path.append(channel_id);
        path.append("/threads/search");
        let url = api_url(path.as_str());
        let full = with_query(url, &list);
        assert(full@ =~= Self::spec_search_threads_url(channel_id@, *params));
        full
    }
}

} // verus!
