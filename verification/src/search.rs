//! Web search providers: their triggers and how a query becomes a URL.

use vstd::prelude::*;
use vstd::string::StringSliceAdditionalSpecFns;
use crate::text::{replace_all, replace_str, same_text};

verus! {

/// The icon shown beside a provider.
#[derive(Clone, Copy, Debug, PartialEq, Eq, Structural)]
pub enum PhosphorIcon {
    MagnifyingGlass,
    Globe,
    BookOpen,
    YoutubeLogo,
}

/// A search provider configuration.
#[derive(Debug, Clone, PartialEq, Eq)]
pub struct SearchProvider {
    /// The provider name (e.g., "Google", "DuckDuckGo")
    pub name: &'static str,
    /// The trigger string (e.g., "!g", "!d", "!wiki")
    pub trigger: &'static str,
    /// The URL template with {query} placeholder
    pub url_template: &'static str,
    /// The icon to use
    pub icon: PhosphorIcon,
}

/// The mathematical value of a [`SearchProvider`].
pub struct ProviderModel {
    pub name: Seq<char>,
    pub trigger: Seq<char>,
    pub url_template: Seq<char>,
    pub icon: PhosphorIcon,
}

impl View for SearchProvider {
    type V = ProviderModel;

    open spec fn view(&self) -> ProviderModel {
        ProviderModel {
            name: self.name@,
            trigger: self.trigger@,
            url_template: self.url_template@,
            icon: self.icon,
        }
    }
}

/// The placeholder that stands for the query in a URL template.
pub const QUERY_PLACEHOLDER: &'static str = "{query}";

/// Whether a byte stands for itself in an encoded query: the letters and
/// digits of the basic alphabet and `-`, `.`, `_`, `~`.
pub open spec fn is_unreserved(b: u8) -> bool {
    ||| 0x30 <= b <= 0x39
    ||| 0x41 <= b <= 0x5a
    ||| 0x61 <= b <= 0x7a
    ||| b == 0x2d
    ||| b == 0x2e
    ||| b == 0x5f
    ||| b == 0x7e
}

/// The upper-case hexadecimal digit for `d`, which is below 16.
pub open spec fn hex_digit(d: u8) -> char {
    if d < 10 {
        ((d + 0x30) as u8) as char
    } else {
        ((d - 10 + 0x41) as u8) as char
    }
}

/// One byte of a query, percent-encoded.
pub open spec fn encoded_byte(b: u8) -> Seq<char> {
    if is_unreserved(b) {
        seq![b as char]
    } else {
        seq!['%', hex_digit(b / 16), hex_digit(b % 16)]
    }
}

/// The bytes of a query, percent-encoded one by one.
pub open spec fn percent_encoded(bytes: Seq<u8>) -> Seq<char>
    decreases bytes.len(),
{
    if bytes.len() == 0 {
        Seq::empty()
    } else {
        encoded_byte(bytes[0]) + percent_encoded(bytes.drop_first())
    }
}

/// Trusted: `urlencoding::encode` percent-encodes every byte of the text's
/// UTF-8 form except the unreserved ones, with upper-case hexadecimal digits.
#[verifier::external_body]
fn percent_encode(query: &str) -> (r: String)
    ensures
        r@ == percent_encoded(query.spec_bytes()),
{
    urlencoding::encode(query).into_owned()
}

/// The URL that a template gives for a query.
pub open spec fn url_for(template: Seq<char>, query_bytes: Seq<u8>) -> Seq<char> {
    replace_all(template, QUERY_PLACEHOLDER@, percent_encoded(query_bytes))
}

impl SearchProvider {
    /// Build a search URL with the given query: the template with each
    /// placeholder replaced by the percent-encoded query.
    pub fn build_url(&self, query: &str) -> (r: String)
        ensures
            r@ == url_for(self@.url_template, query.spec_bytes()),
    {
        let encoded_query = percent_encode(query);
        proof {
            reveal_strlit("{query}");
        }
        replace_str(self.url_template, QUERY_PLACEHOLDER, encoded_query.as_str())
    }
}

/// The values of the available providers, in the order in which their
/// triggers are tried.
pub open spec fn provider_models() -> Seq<ProviderModel> {
    seq![
        ProviderModel {
            name: "Google"@,
            trigger: "!g"@,
            url_template: "https://www.google.com/search?q={query}"@,
            icon: PhosphorIcon::MagnifyingGlass,
        },
        ProviderModel {
            name: "DuckDuckGo"@,
            trigger: "!d"@,
            url_template: "https://duckduckgo.com/?q={query}"@,
            icon: PhosphorIcon::Globe,
        },
        ProviderModel {
            name: "Wikipedia"@,
            trigger: "!wiki"@,
            url_template: "https://en.wikipedia.org/wiki/Special:Search?search={query}"@,
            icon: PhosphorIcon::BookOpen,
        },
        ProviderModel {
            name: "YouTube"@,
            trigger: "!yt"@,
            url_template: "https://www.youtube.com/results?search_query={query}"@,
            icon: PhosphorIcon::YoutubeLogo,
        },
    ]
}

/// The values of a list of providers, in order.
pub open spec fn models_of(ps: Seq<SearchProvider>) -> Seq<ProviderModel> {
    Seq::new(ps.len(), |i: int| ps[i]@)
}

/// The position of the first provider with the given trigger.
pub open spec fn position_of(ps: Seq<ProviderModel>, trigger: Seq<char>) -> Option<int>
    decreases ps.len(),
{
    if ps.len() == 0 {
        None
    } else if ps[0].trigger == trigger {
        Some(0)
    } else {
        match position_of(ps.drop_first(), trigger) {
            Some(k) => Some(k + 1),
            None => None,
        }
    }
}

/// Get all available search providers.
pub fn get_providers() -> (r: Vec<SearchProvider>)
    ensures
        models_of(r@) == provider_models(),
{
    let r = vec![
        SearchProvider {
            name: "Google",
            trigger: "!g",
            url_template: "https://www.google.com/search?q={query}",
            icon: PhosphorIcon::MagnifyingGlass,
        },
        SearchProvider {
            name: "DuckDuckGo",
            trigger: "!d",
            url_template: "https://duckduckgo.com/?q={query}",
            icon: PhosphorIcon::Globe,
        },
        SearchProvider {
            name: "Wikipedia",
            trigger: "!wiki",
            url_template: "https://en.wikipedia.org/wiki/Special:Search?search={query}",
            icon: PhosphorIcon::BookOpen,
        },
        SearchProvider {
            name: "YouTube",
            trigger: "!yt",
            url_template: "https://www.youtube.com/results?search_query={query}",
            icon: PhosphorIcon::YoutubeLogo,
        },
    ];
    proof {
        assert(models_of(r@) =~= provider_models());
    }
    r
}

/// Find a provider by its trigger: the first provider whose trigger is
/// exactly the given text, or none.
pub fn find_provider_by_trigger(trigger: &str) -> (r: Option<SearchProvider>)
    ensures
        match position_of(provider_models(), trigger@) {
            Some(k) => r is Some && r->0@ == provider_models()[k],
            None => r is None,
        },
{
    let providers = get_providers();
    let ghost all = models_of(providers@);
    let mut i: usize = 0;
    proof {
        assert(all.skip(0) =~= all);
    }
    while i < providers.len()
        invariant
            i <= providers.len(),
            all == models_of(providers@),
            all == provider_models(),
            match position_of(all.skip(i as int), trigger@) {
                Some(k) => position_of(all, trigger@) == Some(k + i),
                None => position_of(all, trigger@) is None,
            },
        decreases providers.len() - i,
    {
        proof {
            assert(all.skip(i as int)[0] == providers@[i as int]@);
            assert(all.skip(i as int).drop_first() =~= all.skip(i + 1));
        }
        let p = &providers[i];
        if same_text(p.trigger, trigger) {
            return Some(
                SearchProvider {
                    name: p.name,
                    trigger: p.trigger,
                    url_template: p.url_template,
                    icon: p.icon,
                },
            );
        }
        i += 1;
    }
    None
}

} // verus!
