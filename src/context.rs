//! The settings a name pipeline runs under: country, region and synonym tables.

use vstd::prelude::*;
use crate::strings::{chars_eq, chars_of, string_of, upper_of, uppercase};
use crate::tokens::Tokens;

verus! {

/// Country (uppercase), optional region (uppercase), and the synonym tables.
#[derive(Debug, Clone, PartialEq)]
pub struct Context {
    pub country: String,
    pub region: Option<String>,
    pub tokens: Tokens,
}

impl Context {
    /// A context with empty synonym tables; country and region are uppercased.
    pub fn new(country: String, region: Option<String>) -> (r: Context)
        ensures
            r.country@ == upper_of(country@),
            r.region.is_some() == region.is_some(),
            r.region matches Some(x) ==> x@ == upper_of(region->0@),
            r.tokens.tokens@.len() == 0,
            r.tokens.regex_tokens@.len() == 0,
            r.tokens.multi_tokens@.len() == 0,
    {
        Context::with_tokens(country, region, Tokens::new(Vec::new(), Vec::new(), Vec::new()))
    }

    /// A context with the given synonym tables; country and region are uppercased.
    pub fn with_tokens(country: String, region: Option<String>, tokens: Tokens) -> (r: Context)
        ensures
            r.country@ == upper_of(country@),
            r.region.is_some() == region.is_some(),
            r.region matches Some(x) ==> x@ == upper_of(region->0@),
            r.tokens == tokens,
    {
        let region = match region {
            None => None,
            Some(reg) => Some(uppercase(reg.as_str())),
        };
        Context { country: uppercase(country.as_str()), region, tokens }
    }
    /// `COUNTRY-REGION`, when a region is set.
    pub fn region_code(&self) -> (r: Option<String>)
        ensures
            r.is_some() == self.region.is_some(),
            r matches Some(s) ==> s@ == self.country@ + seq!['-'] + self.region->0@,
    {
        match &self.region {
            None => None,
            Some(region) => {
                let mut out = chars_of(self.country.as_str());
                let reg = chars_of(region.as_str());
                let ghost base = out@.push('-');
                out.push('-');
                let mut i: usize = 0;
                while i < reg.len()
                    invariant
                        i <= reg@.len(),
                        out@ == base + reg@.take(i as int),
                    decreases reg@.len() - i,
                {
                    out.push(reg[i]);
                    assert(out@ =~= base + reg@.take(i + 1));
                    i = i + 1;
                }
                assert(reg@.take(i as int) =~= reg@);
                Some(string_of(&out))
            },
        }
    }

    /// The name of the US state or territory of the region code, if known.
    pub fn region_name(&self) -> (r: Option<String>)
        ensures
            self.region.is_none() ==> r.is_none(),
            self.region.is_some() ==> match r {
                Some(s) => region_name_of(self.country@ + seq!['-'] + self.region->0@) == Some(s@),
                None => region_name_of(self.country@ + seq!['-'] + self.region->0@).is_none(),
            },
    {
        match self.region_code() {
            None => None,
            Some(code) => region_name_chars(&chars_of(code.as_str())),
        }
    }
}

/// The name of a US state or territory from its region code (`US-WV`).
pub open spec fn region_name_of(code: Seq<char>) -> Option<Seq<char>> {
    if code == "US-AL"@ {
        Some("Alabama"@)
    } else if code == "US-AK"@ {
        Some("Alaska"@)
    } else if code == "US-AZ"@ {
        Some("Arizona"@)
    } else if code == "US-AR"@ {
        Some("Arkansas"@)
    } else if code == "US-CA"@ {
        Some("California"@)
    } else if code == "US-CO"@ {
        Some("Colorado"@)
    } else if code == "US-CT"@ {
        Some("Connecticut"@)
    } else if code == "US-DE"@ {
        Some("Delaware"@)
    } else if code == "US-FL"@ {
        Some("Florida"@)
    } else if code == "US-GA"@ {
        Some("Georgia"@)
    } else if code == "US-HI"@ {
        Some("Hawaii"@)
    } else if code == "US-ID"@ {
        Some("Idaho"@)
    } else if code == "US-IL"@ {
        Some("Illinois"@)
    } else if code == "US-IN"@ {
        Some("Indiana"@)
    } else if code == "US-IA"@ {
        Some("Iowa"@)
    } else if code == "US-KS"@ {
        Some("Kansas"@)
    } else if code == "US-KY"@ {
        Some("Kentucky"@)
    } else if code == "US-LA"@ {
        Some("Louisiana"@)
    } else if code == "US-ME"@ {
        Some("Maine"@)
    } else if code == "US-MD"@ {
        Some("Maryland"@)
    } else if code == "US-MA"@ {
        Some("Massachusetts"@)
    } else if code == "US-MI"@ {
        Some("Michigan"@)
    } else if code == "US-MN"@ {
        Some("Minnesota"@)
    } else if code == "US-MS"@ {
        Some("Mississippi"@)
    } else if code == "US-MO"@ {
        Some("Missouri"@)
    } else if code == "US-MT"@ {
        Some("Montana"@)
    } else if code == "US-NE"@ {
        Some("Nebraska"@)
    } else if code == "US-NV"@ {
        Some("Nevada"@)
    } else if code == "US-NH"@ {
        Some("New Hampshire"@)
    } else if code == "US-NJ"@ {
        Some("New Jersey"@)
    } else if code == "US-NM"@ {
        Some("New Mexico"@)
    } else if code == "US-NY"@ {
        Some("New York"@)
    } else if code == "US-NC"@ {
        Some("North Carolina"@)
    } else if code == "US-ND"@ {
        Some("North Dakota"@)
    } else if code == "US-OH"@ {
        Some("Ohio"@)
    } else if code == "US-OK"@ {
        Some("Oklahoma"@)
    } else if code == "US-OR"@ {
        Some("Oregon"@)
    } else if code == "US-PA"@ {
        Some("Pennsylvania"@)
    } else if code == "US-RI"@ {
        Some("Rhode Island"@)
    } else if code == "US-SC"@ {
        Some("South Carolina"@)
    } else if code == "US-SD"@ {
        Some("South Dakota"@)
    } else if code == "US-TN"@ {
        Some("Tennessee"@)
    } else if code == "US-TX"@ {
        Some("Texas"@)
    } else if code == "US-UT"@ {
        Some("Utah"@)
    } else if code == "US-VT"@ {
        Some("Vermont"@)
    } else if code == "US-VA"@ {
        Some("Virginia"@)
    } else if code == "US-WA"@ {
        Some("Washington"@)
    } else if code == "US-WV"@ {
        Some("West Virginia"@)
    } else if code == "US-WI"@ {
        Some("Wisconsin"@)
    } else if code == "US-WY"@ {
        Some("Wyoming"@)
    } else if code == "US-DC"@ {
        Some("District of Columbia"@)
    } else if code == "US-AS"@ {
        Some("American Samoa"@)
    } else if code == "US-GU"@ {
        Some("Guam"@)
    } else if code == "US-MP"@ {
        Some("Northern Mariana Islands"@)
    } else if code == "US-PR"@ {
        Some("Puerto Rico"@)
    } else if code == "US-UM"@ {
        Some("United States Minor Outlying Islands"@)
    } else if code == "US-VI"@ {
        Some("Virgin Islands"@)
    } else {
        None
    }
}

fn region_name_chars(code: &Vec<char>) -> (r: Option<String>)
    ensures
        match r {
            Some(s) => region_name_of(code@) == Some(s@),
            None => region_name_of(code@).is_none(),
        },
{
    if chars_eq(code, &chars_of("US-AL")) {
        Some(string_of(&chars_of("Alabama")))
    } else if chars_eq(code, &chars_of("US-AK")) {
        Some(string_of(&chars_of("Alaska")))
    } else if chars_eq(code, &chars_of("US-AZ")) {
        Some(string_of(&chars_of("Arizona")))
    } else if chars_eq(code, &chars_of("US-AR")) {
        Some(string_of(&chars_of("Arkansas")))
    } else if chars_eq(code, &chars_of("US-CA")) {
        Some(string_of(&chars_of("California")))
    } else if chars_eq(code, &chars_of("US-CO")) {
        Some(string_of(&chars_of("Colorado")))
    } else if chars_eq(code, &chars_of("US-CT")) {
        Some(string_of(&chars_of("Connecticut")))
    } else if chars_eq(code, &chars_of("US-DE")) {
        Some(string_of(&chars_of("Delaware")))
    } else if chars_eq(code, &chars_of("US-FL")) {
        Some(string_of(&chars_of("Florida")))
    } else if chars_eq(code, &chars_of("US-GA")) {
        Some(string_of(&chars_of("Georgia")))
    } else if chars_eq(code, &chars_of("US-HI")) {
        Some(string_of(&chars_of("Hawaii")))
    } else if chars_eq(code, &chars_of("US-ID")) {
        Some(string_of(&chars_of("Idaho")))
    } else if chars_eq(code, &chars_of("US-IL")) {
        Some(string_of(&chars_of("Illinois")))
    } else if chars_eq(code, &chars_of("US-IN")) {
        Some(string_of(&chars_of("Indiana")))
    } else if chars_eq(code, &chars_of("US-IA")) {
        Some(string_of(&chars_of("Iowa")))
    } else if chars_eq(code, &chars_of("US-KS")) {
        Some(string_of(&chars_of("Kansas")))
    } else if chars_eq(code, &chars_of("US-KY")) {
        Some(string_of(&chars_of("Kentucky")))
    } else if chars_eq(code, &chars_of("US-LA")) {
        Some(string_of(&chars_of("Louisiana")))
    } else if chars_eq(code, &chars_of("US-ME")) {
        Some(string_of(&chars_of("Maine")))
    } else if chars_eq(code, &chars_of("US-MD")) {
        Some(string_of(&chars_of("Maryland")))
    } else if chars_eq(code, &chars_of("US-MA")) {
        Some(string_of(&chars_of("Massachusetts")))
    } else if chars_eq(code, &chars_of("US-MI")) {
        Some(string_of(&chars_of("Michigan")))
    } else if chars_eq(code, &chars_of("US-MN")) {
        Some(string_of(&chars_of("Minnesota")))
    } else if chars_eq(code, &chars_of("US-MS")) {
        Some(string_of(&chars_of("Mississippi")))
    } else if chars_eq(code, &chars_of("US-MO")) {
        Some(string_of(&chars_of("Missouri")))
    } else if chars_eq(code, &chars_of("US-MT")) {
        Some(string_of(&chars_of("Montana")))
    } else if chars_eq(code, &chars_of("US-NE")) {
        Some(string_of(&chars_of("Nebraska")))
    } else if chars_eq(code, &chars_of("US-NV")) {
        Some(string_of(&chars_of("Nevada")))
    } else if chars_eq(code, &chars_of("US-NH")) {
        Some(string_of(&chars_of("New Hampshire")))
    } else if chars_eq(code, &chars_of("US-NJ")) {
        Some(string_of(&chars_of("New Jersey")))
    } else if chars_eq(code, &chars_of("US-NM")) {
        Some(string_of(&chars_of("New Mexico")))
    } else if chars_eq(code, &chars_of("US-NY")) {
        Some(string_of(&chars_of("New York")))
    } else if chars_eq(code, &chars_of("US-NC")) {
        Some(string_of(&chars_of("North Carolina")))
    } else if chars_eq(code, &chars_of("US-ND")) {
        Some(string_of(&chars_of("North Dakota")))
    } else if chars_eq(code, &chars_of("US-OH")) {
        Some(string_of(&chars_of("Ohio")))
    } else if chars_eq(code, &chars_of("US-OK")) {
        Some(string_of(&chars_of("Oklahoma")))
    } else if chars_eq(code, &chars_of("US-OR")) {
        Some(string_of(&chars_of("Oregon")))
    } else if chars_eq(code, &chars_of("US-PA")) {
        Some(string_of(&chars_of("Pennsylvania")))
    } else if chars_eq(code, &chars_of("US-RI")) {
        Some(string_of(&chars_of("Rhode Island")))
    } else if chars_eq(code, &chars_of("US-SC")) {
        Some(string_of(&chars_of("South Carolina")))
    } else if chars_eq(code, &chars_of("US-SD")) {
        Some(string_of(&chars_of("South Dakota")))
    } else if chars_eq(code, &chars_of("US-TN")) {
        Some(string_of(&chars_of("Tennessee")))
    } else if chars_eq(code, &chars_of("US-TX")) {
        Some(string_of(&chars_of("Texas")))
    } else if chars_eq(code, &chars_of("US-UT")) {
        Some(string_of(&chars_of("Utah")))
    } else if chars_eq(code, &chars_of("US-VT")) {
        Some(string_of(&chars_of("Vermont")))
    } else if chars_eq(code, &chars_of("US-VA")) {
        Some(string_of(&chars_of("Virginia")))
    } else if chars_eq(code, &chars_of("US-WA")) {
        Some(string_of(&chars_of("Washington")))
    } else if chars_eq(code, &chars_of("US-WV")) {
        Some(string_of(&chars_of("West Virginia")))
    } else if chars_eq(code, &chars_of("US-WI")) {
        Some(string_of(&chars_of("Wisconsin")))
    } else if chars_eq(code, &chars_of("US-WY")) {
        Some(string_of(&chars_of("Wyoming")))
    } else if chars_eq(code, &chars_of("US-DC")) {
        Some(string_of(&chars_of("District of Columbia")))
    } else if chars_eq(code, &chars_of("US-AS")) {
        Some(string_of(&chars_of("American Samoa")))
    } else if chars_eq(code, &chars_of("US-GU")) {
        Some(string_of(&chars_of("Guam")))
    } else if chars_eq(code, &chars_of("US-MP")) {
        Some(string_of(&chars_of("Northern Mariana Islands")))
    } else if chars_eq(code, &chars_of("US-PR")) {
        Some(string_of(&chars_of("Puerto Rico")))
    } else if chars_eq(code, &chars_of("US-UM")) {
        Some(string_of(&chars_of("United States Minor Outlying Islands")))
    } else if chars_eq(code, &chars_of("US-VI")) {
        Some(string_of(&chars_of("Virgin Islands")))
    } else {
        None
    }
}

} // verus!
