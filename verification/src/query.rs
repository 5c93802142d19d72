//! Filters of a build-order request and their encoding as URL query
//! parameters.
//!
//! A parameter is sent only when it differs from what the server assumes
//! without it: no civilization filter, the server's own ordering, no overlay.

use vstd::prelude::*;

verus! {

/// A playable civilization, or `Any` for "do not filter".
#[derive(Debug, Clone, Copy, PartialEq, Eq, Structural)]
pub enum Civilization {
    /// No filter: every civilization
    Any,
    /// Abbasid Dynasty
    Abb,
    /// Ayyubids
    Ayy,
    /// Byzantines
    Byz,
    /// Chinese
    Chi,
    /// Delhi Sultanate
    Del,
    /// English
    Eng,
    /// French
    Fre,
    /// Golden Horde
    Gol,
    /// House of Lancaster
    Hol,
    /// Holy Roman Empire
    Hre,
    /// Japanese
    Jap,
    /// Jeanne d'Arc
    Jda,
    /// Knights Templar
    Kte,
    /// Macedonian Dynasty
    Mac,
    /// Malians
    Mal,
    /// Mongols
    Mon,
    /// Order of the Dragon
    Dra,
    /// Ottomans
    Ott,
    /// Rus
    Rus,
    /// Sengoku Daimyo
    Sen,
    /// Tughlaq Dynasty
    Tug,
    /// Zhu Xi's Legacy
    Zxl,
}

impl Civilization {
    /// The three-letter code of the civilization, as the server spells it.
    pub open spec fn code(self) -> Seq<char> {
        match self {
            Civilization::Any => "ANY"@,
            Civilization::Abb => "ABB"@,
            Civilization::Ayy => "AYY"@,
            Civilization::Byz => "BYZ"@,
            Civilization::Chi => "CHI"@,
            Civilization::Del => "DEL"@,
            Civilization::Eng => "ENG"@,
            Civilization::Fre => "FRE"@,
            Civilization::Gol => "GOL"@,
            Civilization::Hol => "HOL"@,
            Civilization::Hre => "HRE"@,
            Civilization::Jap => "JAP"@,
            Civilization::Jda => "JDA"@,
            Civilization::Kte => "KTE"@,
            Civilization::Mac => "MAC"@,
            Civilization::Mal => "MAL"@,
            Civilization::Mon => "MON"@,
            Civilization::Dra => "DRA"@,
            Civilization::Ott => "OTT"@,
            Civilization::Rus => "RUS"@,
            Civilization::Sen => "SEN"@,
            Civilization::Tug => "TUG"@,
            Civilization::Zxl => "ZXL"@,
        }
    }

    /// The code as a string slice.
    pub fn as_str(&self) -> (s: &'static str)
        ensures
            s@ == self.code(),
    {
        match self {
            Civilization::Any => "ANY",
            Civilization::Abb => "ABB",
            Civilization::Ayy => "AYY",
            Civilization::Byz => "BYZ",
            Civilization::Chi => "CHI",
            Civilization::Del => "DEL",
            Civilization::Eng => "ENG",
            Civilization::Fre => "FRE",
            Civilization::Gol => "GOL",
            Civilization::Hol => "HOL",
            Civilization::Hre => "HRE",
            Civilization::Jap => "JAP",
            Civilization::Jda => "JDA",
            Civilization::Kte => "KTE",
            Civilization::Mac => "MAC",
            Civilization::Mal => "MAL",
            Civilization::Mon => "MON",
            Civilization::Dra => "DRA",
            Civilization::Ott => "OTT",
            Civilization::Rus => "RUS",
            Civilization::Sen => "SEN",
            Civilization::Tug => "TUG",
            Civilization::Zxl => "ZXL",
        }
    }

    /// The code as an owned string.
    pub fn to_string(&self) -> (s: String)
        ensures
            s@ == self.code(),
    {
        String::from_str(self.as_str())
    }
}

/// Criterion by which the server orders the build orders it returns.
#[derive(Debug, Clone, Copy, PartialEq, Eq, Structural)]
pub enum SortBy {
    /// Order by the platform's dynamic score.
    Score,
    /// Order by creation time, newest first.
    TimeCreated,
    /// Order by total number of views.
    Views,
    /// Order by number of likes.
    Likes,
}

impl SortBy {
    /// The token that names the criterion in a request.
    pub open spec fn token(self) -> Seq<char> {
        match self {
            SortBy::Score => "score"@,
            SortBy::TimeCreated => "timeCreated"@,
            SortBy::Views => "views"@,
            SortBy::Likes => "likes"@,
        }
    }

    /// The token as a string slice.
    pub fn as_str(&self) -> (s: &'static str)
        ensures
            s@ == self.token(),
    {
        match self {
            SortBy::Score => "score",
            SortBy::TimeCreated => "timeCreated",
            SortBy::Views => "views",
            SortBy::Likes => "likes",
        }
    }

    /// The token as an owned string.
    pub fn to_string(&self) -> (s: String)
        ensures
            s@ == self.token(),
    {
        String::from_str(self.as_str())
    }
}

/// What a `Query` holds: the civilization code and the sort token, each
/// present only when it is to be sent, and the overlay flag.
pub struct QueryView {
    pub civ: Option<Seq<char>>,
    pub order_by: Option<Seq<char>>,
    pub overlay: bool,
}

/// The filters of one request, already in the spelling of the wire.
#[derive(Debug)]
pub struct Query {
    civ: Option<String>,
    order_by: Option<String>,
    overlay: bool,
}

impl View for Query {
    type V = QueryView;

    closed spec fn view(&self) -> QueryView {
        QueryView {
            civ: match self.civ {
                Some(s) => Some(s@),
                None => None,
            },
            order_by: match self.order_by {
                Some(s) => Some(s@),
                None => None,
            },
            overlay: self.overlay,
        }
    }
}

/// The query that stands for a choice of filters: `Any` leaves the
/// civilization out, no criterion leaves the ordering out.
pub open spec fn query_of(civ: Civilization, order_by: Option<SortBy>, overlay: bool) -> QueryView {
    QueryView {
        civ: if civ == Civilization::Any {
            None
        } else {
            Some(civ.code())
        },
        order_by: match order_by {
            Some(o) => Some(o.token()),
            None => None,
        },
        overlay,
    }
}

/// The `civ` parameter of a query, if it is sent.
pub open spec fn civ_param(q: QueryView) -> Seq<(Seq<char>, Seq<char>)> {
    match q.civ {
        Some(code) => seq![("civ"@, code)],
        None => seq![],
    }
}

/// The `orderBy` parameter of a query, if it is sent.
pub open spec fn order_param(q: QueryView) -> Seq<(Seq<char>, Seq<char>)> {
    match q.order_by {
        Some(token) => seq![("orderBy"@, token)],
        None => seq![],
    }
}

/// The `overlay` parameter of a query, if it is sent.
pub open spec fn overlay_param(q: QueryView) -> Seq<(Seq<char>, Seq<char>)> {
    if q.overlay {
        seq![("overlay"@, "true"@)]
    } else {
        seq![]
    }
}

/// The parameters of a query as name and value, in the order `civ`,
/// `orderBy`, `overlay`.
pub open spec fn encoded(q: QueryView) -> Seq<(Seq<char>, Seq<char>)> {
    civ_param(q) + order_param(q) + overlay_param(q)
}

/// A list of name and value strings, each taken by its characters.
pub open spec fn pairs_view(v: Seq<(String, String)>) -> Seq<(Seq<char>, Seq<char>)> {
    v.map_values(|p: (String, String)| (p.0@, p.1@))
}

/// Whether a flag is unset; an unset overlay flag is not sent.
pub fn is_false(b: &bool) -> (r: bool)
    ensures
        r == !*b,
{
    !*b
}

impl Query {
    /// Builds the query for a choice of filters.
    pub fn from_parts(civ: Civilization, order_by: Option<SortBy>, overlay: bool) -> (q: Query)
        ensures
            q@ == query_of(civ, order_by, overlay),
    {
        Query {
            civ: match civ {
                Civilization::Any => None,
                other => Some(other.to_string()),
            },
            order_by: match order_by {
                Some(o) => Some(o.to_string()),
                None => None,
            },
            overlay,
        }
    }

    /// The civilization code that is sent, if any.
    pub fn civ(&self) -> (r: Option<&str>)
        ensures
            r.is_some() == self@.civ.is_some(),
            r matches Some(s) ==> s@ == self@.civ.unwrap(),
    {
        match &self.civ {
            Some(s) => Some(s.as_str()),
            None => None,
        }
    }

    /// The sort token that is sent, if any.
    pub fn order_by(&self) -> (r: Option<&str>)
        ensures
            r.is_some() == self@.order_by.is_some(),
            r matches Some(s) ==> s@ == self@.order_by.unwrap(),
    {
        match &self.order_by {
            Some(s) => Some(s.as_str()),
            None => None,
        }
    }

    /// Whether overlay data is asked for.
    pub fn overlay(&self) -> (r: bool)
        ensures
            r == self@.overlay,
    {
        self.overlay
    }

    /// The parameters to append to the URL, as name and value.
    pub fn pairs(&self) -> (v: Vec<(String, String)>)
        ensures
            pairs_view(v@) == encoded(self@),
    {
        let mut v: Vec<(String, String)> = Vec::new();
        assert(pairs_view(v@) =~= seq![]);
        if let Some(code) = &self.civ {
            v.push((String::from_str("civ"), code.clone()));
            assert(pairs_view(v@) =~= civ_param(self@));
        }
        assert(pairs_view(v@) =~= civ_param(self@));
        if let Some(token) = &self.order_by {
            let ghost before = v@;
            v.push((String::from_str("orderBy"), token.clone()));
            assert(pairs_view(v@) =~= pairs_view(before) + order_param(self@));
        }
        assert(pairs_view(v@) =~= civ_param(self@) + order_param(self@));
        if !is_false(&self.overlay) {
            let ghost before = v@;
            v.push((String::from_str("overlay"), String::from_str("true")));
            assert(pairs_view(v@) =~= pairs_view(before) + overlay_param(self@));
        }
        assert(pairs_view(v@) =~= encoded(self@));
        v
    }
}

/// Reveals the characters of every civilization code.
pub proof fn lemma_codes_known()
    ensures
        forall|c: Civilization| #[trigger] c.code().len() == 3,
        forall|c: Civilization, i: int|
            0 <= i < 3 ==> 'A' <= #[trigger] c.code()[i] <= 'Z',
        forall|a: Civilization, b: Civilization|
            #[trigger] a.code() == #[trigger] b.code() ==> a == b,
{
    reveal_strlit("ANY");
    reveal_strlit("ABB");
    reveal_strlit("AYY");
    reveal_strlit("BYZ");
    reveal_strlit("CHI");
    reveal_strlit("DEL");
    reveal_strlit("ENG");
    reveal_strlit("FRE");
    reveal_strlit("GOL");
    reveal_strlit("HOL");
    reveal_strlit("HRE");
    reveal_strlit("JAP");
    reveal_strlit("JDA");
    reveal_strlit("KTE");
    reveal_strlit("MAC");
    reveal_strlit("MAL");
    reveal_strlit("MON");
    reveal_strlit("DRA");
    reveal_strlit("OTT");
    reveal_strlit("RUS");
    reveal_strlit("SEN");
    reveal_strlit("TUG");
    reveal_strlit("ZXL");
    assert forall|a: Civilization, b: Civilization|
        #[trigger] a.code() == #[trigger] b.code() implies a == b by {
        if a != b {
            assert(a.code()[0] != b.code()[0] || a.code()[1] != b.code()[1] || a.code()[2]
                != b.code()[2]);
        }
    }
}

/// A civilization code is three upper-case letters.
pub proof fn lemma_code_is_three_capitals(civ: Civilization)
    ensures
        civ.code().len() == 3,
        forall|i: int| 0 <= i < 3 ==> 'A' <= #[trigger] civ.code()[i] <= 'Z',
{
    lemma_codes_known();
}

/// Two civilizations with the same code are the same civilization.
pub proof fn lemma_code_is_injective(a: Civilization, b: Civilization)
    requires
        a.code() == b.code(),
    ensures
        a == b,
{
    lemma_codes_known();
}

/// Two criteria with the same token are the same criterion, and no token
/// is empty.
pub proof fn lemma_token_is_injective(a: SortBy, b: SortBy)
    ensures
        a.token().len() > 0,
        a.token() == b.token() ==> a == b,
{
    reveal_strlit("score");
    reveal_strlit("timeCreated");
    reveal_strlit("views");
    reveal_strlit("likes");
    if a != b {
        assert(a.token()[0] != b.token()[0] || a.token().len() != b.token().len());
    }
}

/// Whether a parameter list holds a parameter of the given name.
pub open spec fn has_param(params: Seq<(Seq<char>, Seq<char>)>, name: Seq<char>) -> bool {
    exists|i: int| 0 <= i < params.len() && (#[trigger] params[i]).0 == name
}

/// Whether a parameter list holds the given name with the given value.
pub open spec fn has_pair(
    params: Seq<(Seq<char>, Seq<char>)>,
    name: Seq<char>,
    value: Seq<char>,
) -> bool {
    exists|i: int| 0 <= i < params.len() && #[trigger] params[i] == (name, value)
}

/// The number of filters that differ from what the server assumes.
pub open spec fn filters_set(civ: Civilization, order_by: Option<SortBy>, overlay: bool) -> nat {
    (if civ == Civilization::Any {
        0nat
    } else {
        1nat
    }) + (if order_by.is_some() {
        1nat
    } else {
        0nat
    }) + (if overlay {
        1nat
    } else {
        0nat
    })
}

/// A filter is sent exactly when it differs from what the server assumes
/// without it, under its own name and with its own spelling, and nothing
/// else is sent: `civ` with the code unless the civilization is `Any`,
/// `orderBy` with the token when a criterion is given, `overlay` with
/// `true` when the flag is set. The value `false` is never sent.
pub proof fn lemma_only_set_filters_are_sent(
    civ: Civilization,
    order_by: Option<SortBy>,
    overlay: bool,
)
    ensures
        ({
            let params = encoded(query_of(civ, order_by, overlay));
            &&& params.len() == filters_set(civ, order_by, overlay)
            &&& has_param(params, "civ"@) <==> civ != Civilization::Any
            &&& civ != Civilization::Any ==> has_pair(params, "civ"@, civ.code())
            &&& has_param(params, "orderBy"@) <==> order_by.is_some()
            &&& order_by matches Some(o) ==> has_pair(params, "orderBy"@, o.token())
            &&& has_param(params, "overlay"@) <==> overlay
            &&& overlay ==> has_pair(params, "overlay"@, "true"@)
            &&& forall|i: int| 0 <= i < params.len() ==> (#[trigger] params[i]).1 != "false"@
            &&& forall|i: int, j: int|
                0 <= i < j < params.len() ==> (#[trigger] params[i]).0 != (#[trigger] params[j]).0
        }),
{
    reveal_strlit("civ");
    reveal_strlit("orderBy");
    reveal_strlit("overlay");
    reveal_strlit("true");
    reveal_strlit("false");
    lemma_codes_known();
    reveal_strlit("score");
    reveal_strlit("timeCreated");
    reveal_strlit("views");
    reveal_strlit("likes");
    let q = query_of(civ, order_by, overlay);
    let params = encoded(q);
    assert("civ"@ != "orderBy"@ && "civ"@ != "overlay"@ && "orderBy"@ != "overlay"@) by {
        assert("civ"@.len() == 3 && "orderBy"@.len() == 7);
        assert("civ"@[0] != "overlay"@[0]);
        assert("orderBy"@[1] != "overlay"@[1]);
    }
    assert("true"@ != "false"@) by {
        assert("true"@.len() == 4 && "false"@.len() == 5);
    }
    assert forall|o: SortBy| #[trigger] o.token() != "false"@ by {
        assert(o.token()[0] != "false"@[0] || o.token().len() != "false"@.len());
    }
    assert forall|c: Civilization| #[trigger] c.code() != "false"@ by {
        assert(c.code().len() == 3);
    }
    if civ != Civilization::Any {
        assert(params[0] == ("civ"@, civ.code()));
    }
    if let Some(o) = order_by {
        let k = civ_param(q).len() as int;
        assert(params[k] == ("orderBy"@, o.token()));
    }
    if overlay {
        let k = (civ_param(q).len() + order_param(q).len()) as int;
        assert(params[k] == ("overlay"@, "true"@));
    }
}

} // verus!
