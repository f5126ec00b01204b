//! Per-article entries and the feed document. An entry carries the four
//! facts the output format needs — id, link, title, update time — and the
//! document gathers the feed-level metadata around the ranked entry list.
//! Serialization of the document is not this crate's business.

use vstd::prelude::*;
use crate::FeedError;
use crate::category::Category;
use crate::paths::parent_name;
use crate::timestamp::date_epoch_secs;
use crate::timestamp::date_source;
use crate::timestamp::get_update_time;
use crate::timestamp::has_date_prefix;
use crate::timestamp::prefix_date_valid;
use crate::timestamp::prefix_day;
use crate::timestamp::prefix_month;
use crate::timestamp::prefix_year;
use crate::title::default_title;
use crate::title::default_title_str;
use crate::title::extract_first_heading;
use crate::title::heading_or;
use crate::title::lines_view;
use crate::urls::entry_url;
use crate::urls::entry_url_of;

verus! {

/// The program's version, embedded in the generator block of every feed.
pub const VERSION: &'static str = "1.1.1";

/// A feed-ready article: stable identifier (its canonical URL), link,
/// title and resolved update time in seconds from the Unix epoch.
pub struct ArticleEntry {
    pub id: String,
    pub link: String,
    pub title: String,
    pub updated: i64,
}

/// The feed's author block: a name (possibly empty) and an optional
/// address.
pub struct PersonModel {
    pub name: String,
    pub email: Option<String>,
}

/// Everything the output document holds, ready for serialization: the
/// feed-level metadata and the ranked entries, most recent first.
pub struct FeedDocument {
    pub id: String,
    pub title: String,
    pub subtitle: Option<String>,
    pub generator_value: String,
    pub generator_uri: String,
    pub generator_version: String,
    pub rights: String,
    pub author: Option<PersonModel>,
    pub self_href: String,
    pub alternate_href: String,
    pub updated: i64,
    pub entries: Vec<ArticleEntry>,
}

/// The validated configuration the document is assembled from.
pub struct FeedConfig {
    pub base_url: String,
    pub title: Option<String>,
    pub subtitle: Option<String>,
    pub author: Option<String>,
    pub email: Option<String>,
    pub clean: bool,
}

/// The text of an optional string.
pub open spec fn opt_view(o: Option<String>) -> Option<Seq<char>> {
    match o {
        Some(s) => Some(s@),
        None => None,
    }
}

/// Build one feed entry from an article file: resolve its canonical URL
/// (also the id), extract its title from the file's text (`lines`), and
/// resolve its update time from the date-source name or from `fs_time`.
pub fn populate_entry_from_file(
    filepath: &str,
    base_url: &str,
    root: &str,
    cat: Category,
    clean: bool,
    lines: &Vec<String>,
    fs_time: i64,
) -> (r: Result<ArticleEntry, FeedError>)
    requires
        root@.len() <= filepath@.len(),
        cat is Tree ==> parent_name(filepath@) is Some,
    ensures
        match r {
            Ok(entry) => {
                &&& entry_url_of(base_url@, filepath@, root@) == Some(entry.id@)
                &&& entry.link@ == entry.id@
                &&& entry.title@ == heading_or(
                    lines_view(lines@),
                    default_title(filepath@, cat, clean),
                )
                &&& has_date_prefix(date_source(filepath@, cat)) ==> {
                    &&& prefix_date_valid(date_source(filepath@, cat))
                    &&& entry.updated == date_epoch_secs(
                        prefix_year(date_source(filepath@, cat)),
                        prefix_month(date_source(filepath@, cat)),
                        prefix_day(date_source(filepath@, cat)),
                    )
                }
                &&& !has_date_prefix(date_source(filepath@, cat)) ==> entry.updated == fs_time
            },
            Err(e) => if entry_url_of(base_url@, filepath@, root@) is None {
                e == FeedError::UrlNotResolvable
            } else {
                &&& e == FeedError::InvalidDate
                &&& has_date_prefix(date_source(filepath@, cat))
                &&& !prefix_date_valid(date_source(filepath@, cat))
            },
        },
{
    let url = match entry_url(base_url, filepath, root) {
        Ok(u) => u,
        Err(e) => {
            return Err(e);
        },
    };
    let updated = match get_update_time(filepath, cat, fs_time) {
        Ok(t) => t,
        Err(e) => {
            return Err(e);
        },
    };
    let dtitle = default_title_str(filepath, cat, clean);
    let title = extract_first_heading(lines, dtitle.as_str());
    let link = url.clone();
    Ok(ArticleEntry { id: url, link, title, updated })
}

/// The author block the configuration calls for: present exactly when a
/// name or an address was supplied, the name empty when only the address
/// was.
pub open spec fn author_block(author: Option<Seq<char>>, email: Option<Seq<char>>) -> bool {
    (author matches Some(a) && a.len() > 0) || email is Some
}

/// Assemble the output document around the ranked entries: feed id and
/// both links are the base URL, the title is the override or the inferred
/// site title (`feed_title`), the generator and rights blocks are fixed,
/// the author block appears only when configured, and the feed-level
/// update time is the most recent entry's. With no entries there is no
/// document at all.
pub fn build_feed(cfg: &FeedConfig, feed_title: String, entries: Vec<ArticleEntry>) -> (r: Option<
    FeedDocument,
>)
    requires
        cfg.title matches Some(t) ==> feed_title@ == t@,
    ensures
        (r is None) == (entries@.len() == 0),
        r matches Some(doc) ==> {
            &&& doc.id@ == cfg.base_url@
            &&& doc.title@ == feed_title@
            &&& opt_view(doc.subtitle) == opt_view(cfg.subtitle)
            &&& doc.generator_value@ == "gematom, an atom feed generator for gemini."@
            &&& doc.generator_uri@ == "https://github.com/drtutut/gematom"@
            &&& doc.generator_version@ == VERSION@
            &&& doc.rights@ == "© Éric Würbel 2021"@
            &&& if author_block(opt_view(cfg.author), opt_view(cfg.email)) {
                doc.author matches Some(p) && p.name@ == (match cfg.author {
                    Some(a) => a@,
                    None => Seq::<char>::empty(),
                }) && opt_view(p.email) == opt_view(cfg.email)
            } else {
                doc.author is None
            }
            &&& doc.self_href@ == cfg.base_url@
            &&& doc.alternate_href@ == cfg.base_url@
            &&& doc.updated == entries@[0].updated
            &&& doc.entries@ == entries@
        },
{
    if entries.len() == 0 {
        return None;
    }
    let name: String = match &cfg.author {
        Some(a) => a.clone(),
        None => String::new(),
    };
    let email: Option<String> = match &cfg.email {
        Some(e) => Some(e.clone()),
        None => None,
    };
    let author: Option<PersonModel> = if !name.as_str().is_empty() || email.is_some() {
        Some(PersonModel { name, email })
    } else {
        None
    };
    let subtitle: Option<String> = match &cfg.subtitle {
        Some(s) => Some(s.clone()),
        None => None,
    };
    let updated = entries[0].updated;
    Some(
        FeedDocument {
            id: cfg.base_url.clone(),
            title: feed_title,
            subtitle,
            generator_value: "gematom, an atom feed generator for gemini.".to_owned(),
            generator_uri: "https://github.com/drtutut/gematom".to_owned(),
            generator_version: VERSION.to_owned(),
            rights: "© Éric Würbel 2021".to_owned(),
            author,
            self_href: cfg.base_url.clone(),
            alternate_href: cfg.base_url.clone(),
            updated,
            entries,
        },
    )
}

} // verus!
