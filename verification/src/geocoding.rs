//! Geocoding requests: the search for places by name.

use crate::forecast::options::{
    optional_decimal, optional_text, params_view, push_optional, with_optional,
};
use crate::text::decimal_string;
use vstd::prelude::*;

verus! {

/// What a geocoding request asks for.
#[derive(Debug, Clone)]
pub struct Options {
    pub name: Option<String>,
    pub language: Option<String>,
    pub count: Option<u16>,
}

impl Default for Options {
    /// Options that name nothing.
    fn default() -> (options: Options)
        ensures
            options.name.is_none(),
            options.language.is_none(),
            options.count.is_none(),
    {
        Options { name: None, language: None, count: None }
    }
}

impl Options {
    /// These options with the name to search for.
    pub fn with_name(self, name: String) -> (options: Self)
        ensures
            options.name == Some(name),
            options.language == self.language,
            options.count == self.count,
    {
        let mut options = self;
        options.name = Some(name);
        options
    }

    /// These options with the language of the answers.
    pub fn with_language(self, language: String) -> (options: Self)
        ensures
            options.name == self.name,
            options.language == Some(language),
            options.count == self.count,
    {
        let mut options = self;
        options.language = Some(language);
        options
    }

    /// These options with the number of places to return.
    pub fn with_count(self, count: u16) -> (options: Self)
        ensures
            options.name == self.name,
            options.language == self.language,
            options.count == Some(count),
    {
        let mut options = self;
        options.count = Some(count);
        options
    }

    /// The query parameters of the request, in the order in which they are
    /// sent: each is there where the options name a value for it.
    pub open spec fn spec_params(&self) -> Seq<(Seq<char>, Seq<char>)> {
        let p = Seq::<(Seq<char>, Seq<char>)>::empty();
        let p = with_optional(p, "name"@, optional_text(self.name));
        let p = with_optional(p, "language"@, optional_text(self.language));
        let p = with_optional(
            p,
            "count"@,
            optional_decimal(
                match self.count {
                    Some(count) => Some(count as nat),
                    None => None,
                },
            ),
        );
        p
    }

    /// The query parameters of the request, in the order in which they are
    /// sent.
    pub fn as_params(self) -> (params: Vec<(String, String)>)
        ensures
            params_view(params@) == self.spec_params(),
    {
        let mut params: Vec<(String, String)> = Vec::new();
        assert(params_view(params@) =~= Seq::<(Seq<char>, Seq<char>)>::empty());
        push_optional(&mut params, "name", self.name);
        push_optional(&mut params, "language", self.language);
        push_optional(
            &mut params,
            "count",
            match self.count {
                Some(count) => Some(decimal_string(count as u64)),
                None => None,
            },
        );
        params
    }
}

} // verus!
