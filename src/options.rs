//! Parameters of the authorization request, and the postal address claim.
use vstd::prelude::*;
use vstd::string::{StrSliceExecFns, StringExecFns};

verus! {

/// How the provider should display its authentication pages.
#[derive(Debug, Clone, Copy, PartialEq, Eq, Structural, Hash)]
pub enum Display {
    Page,
    Popup,
    Touch,
    Wap,
}

impl Display {
    pub open spec fn spec_str(self) -> Seq<char> {
        match self {
            Display::Page => "page"@,
            Display::Popup => "popup"@,
            Display::Touch => "touch"@,
            Display::Wap => "wap"@,
        }
    }

    /// The parameter value of this display mode.
    pub fn as_str(&self) -> (r: &'static str)
        ensures
            r@ == self.spec_str(),
    {
        match self {
            Display::Page => "page",
            Display::Popup => "popup",
            Display::Touch => "touch",
            Display::Wap => "wap",
        }
    }
}

/// Whether the provider should prompt the end user again.
#[derive(Debug, Clone, Copy, PartialEq, Eq, Structural, Hash)]
pub enum Prompt {
    /// The `none` value: no page at all.
    NoPrompt,
    Login,
    Consent,
    SelectAccount,
}

impl Prompt {
    pub open spec fn spec_str(self) -> Seq<char> {
        match self {
            Prompt::NoPrompt => "none"@,
            Prompt::Login => "login"@,
            Prompt::Consent => "consent"@,
            Prompt::SelectAccount => "select_account"@,
        }
    }

    /// The parameter value of this prompt.
    pub fn as_str(&self) -> (r: &'static str)
        ensures
            r@ == self.spec_str(),
    {
        match self {
            Prompt::NoPrompt => "none",
            Prompt::Login => "login",
            Prompt::Consent => "consent",
            Prompt::SelectAccount => "select_account",
        }
    }
}

/// The prompt values, separated by single spaces.
pub open spec fn prompts_text(ps: Seq<Prompt>) -> Seq<char>
    decreases ps.len(),
{
    if ps.len() == 0 {
        Seq::empty()
    } else if ps.len() == 1 {
        ps[0].spec_str()
    } else {
        prompts_text(ps.drop_last()) + " "@ + ps.last().spec_str()
    }
}

/// The value of the `prompt` parameter for these prompts, each named once.
pub fn prompt_param(prompts: &Vec<Prompt>) -> (r: String)
    requires
        prompts@.no_duplicates(),
    ensures
        r@ == prompts_text(prompts@),
{
    let mut out = String::new();
    let mut i: usize = 0;
    while i < prompts.len()
        invariant
            0 <= i <= prompts@.len(),
            out@ == prompts_text(prompts@.subrange(0, i as int)),
        decreases prompts@.len() - i,
    {
        proof {
            assert(prompts@.subrange(0, i + 1).drop_last() =~= prompts@.subrange(0, i as int));
        }
        if i > 0 {
            out.append(" ");
        }
        out.append(prompts[i].as_str());
        i = i + 1;
    }
    assert(prompts@.subrange(0, prompts@.len() as int) =~= prompts@);
    out
}

/// `pat` occurs in `s`.
pub open spec fn has_infix(s: Seq<char>, pat: Seq<char>) -> bool {
    exists|i: int| 0 <= i <= s.len() - pat.len() && #[trigger] s.subrange(i, i + pat.len()) == pat
}

/// `pat` occurs in `s`, found by comparing it at each position in turn.
fn mentions(s: &str, pat: &str) -> (r: bool)
    ensures
        r == has_infix(s@, pat@),
{
    let n = s.unicode_len();
    let m = pat.unicode_len();
    if m > n {
        return false;
    }
    let mut i: usize = 0;
    while i <= n - m
        invariant
            n == s@.len(),
            m == pat@.len(),
            m <= n,
            0 <= i <= n - m + 1,
            forall|k: int| 0 <= k < i ==> #[trigger] s@.subrange(k, k + m) != pat@,
        decreases n - m + 1 - i,
    {
        let mut j: usize = 0;
        let mut same = true;
        while j < m && same
            invariant
                n == s@.len(),
                m == pat@.len(),
                i + m <= n,
                0 <= j <= m,
                forall|t: int| 0 <= t < j ==> s@[i + t] == pat@[t],
                !same ==> j < m && s@[i + j] != pat@[j as int],
            decreases m - j + (if same { 1int } else { 0int }),
        {
            if s.get_char(i + j) == pat.get_char(j) {
                j = j + 1;
            } else {
                same = false;
            }
        }
        if same {
            assert(s@.subrange(i as int, i + m) =~= pat@);
            return true;
        }
        assert(s@.subrange(i as int, i + m)[j as int] != pat@[j as int]);
        i = i + 1;
    }
    false
}

/// The scope that is requested: `openid` alone by default, and `openid` put in
/// front of a scope that lacks it.
pub open spec fn scope_text(scope: Option<Seq<char>>) -> Seq<char> {
    match scope {
        None => "openid"@,
        Some(s) => if has_infix(s, "openid"@) {
            s
        } else {
            "openid "@ + s
        },
    }
}

/// The value of the `scope` parameter of an authorization request.
pub fn scope_param(scope: &Option<String>) -> (r: String)
    ensures
        r@ == scope_text(crate::algorithm::opt_text(*scope)),
{
    match scope {
        None => String::from_str("openid"),
        Some(s) => {
            if mentions(s.as_str(), "openid") {
                s.clone()
            } else {
                String::from_str("openid ").concat(s.as_str())
            }
        },
    }
}

/// Optional parameters of the authorization request. Times are in seconds.
#[derive(Debug, Clone)]
pub struct Options {
    pub scope: Option<String>,
    pub state: Option<String>,
    pub nonce: Option<String>,
    pub display: Option<Display>,
    /// A set of prompts: no value may occur twice.
    pub prompt: Option<Vec<Prompt>>,
    pub max_age: Option<i64>,
    pub ui_locales: Option<String>,
    pub claims_locales: Option<String>,
    pub id_token_hint: Option<String>,
    pub login_hint: Option<String>,
    pub acr_values: Option<String>,
}

impl Options {
    /// The prompts, where given, form a set.
    pub open spec fn wf(self) -> bool {
        self.prompt matches Some(p) ==> p@.no_duplicates()
    }
}

impl Default for Options {
    fn default() -> (r: Options)
        ensures
            r.wf(),
            r.scope is None && r.state is None && r.nonce is None && r.display is None
                && r.prompt is None && r.max_age is None && r.ui_locales is None
                && r.claims_locales is None && r.id_token_hint is None && r.login_hint is None
                && r.acr_values is None,
    {
        Options {
            scope: None,
            state: None,
            nonce: None,
            display: None,
            prompt: None,
            max_age: None,
            ui_locales: None,
            claims_locales: None,
            id_token_hint: None,
            login_hint: None,
            acr_values: None,
        }
    }
}

/// The postal address claim: formatted, in parts, or both.
#[derive(Debug, Clone, PartialEq, Eq, Default)]
pub struct Address {
    pub formatted: Option<String>,
    pub street_address: Option<String>,
    pub locality: Option<String>,
    pub region: Option<String>,
    pub postal_code: Option<String>,
    pub country: Option<String>,
}

} // verus!
