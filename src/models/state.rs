//! Jurisdictions: the fifty states and the federal district.
use vstd::prelude::*;

verus! {

/// All US states and the District of Columbia.
#[derive(Debug, Clone, Copy, PartialEq, Eq, Structural, Hash)]
pub enum USState {
    Alabama,
    Alaska,
    Arizona,
    Arkansas,
    California,
    Colorado,
    Connecticut,
    Delaware,
    Florida,
    Georgia,
    Hawaii,
    Idaho,
    Illinois,
    Indiana,
    Iowa,
    Kansas,
    Kentucky,
    Louisiana,
    Maine,
    Maryland,
    Massachusetts,
    Michigan,
    Minnesota,
    Mississippi,
    Missouri,
    Montana,
    Nebraska,
    Nevada,
    NewHampshire,
    NewJersey,
    NewMexico,
    NewYork,
    NorthCarolina,
    NorthDakota,
    Ohio,
    Oklahoma,
    Oregon,
    Pennsylvania,
    RhodeIsland,
    SouthCarolina,
    SouthDakota,
    Tennessee,
    Texas,
    Utah,
    Vermont,
    Virginia,
    Washington,
    WashingtonDC,
    WestVirginia,
    Wisconsin,
    Wyoming,
}

/// Number of jurisdictions.
pub const STATE_COUNT: usize = 51;

/// What `str::to_uppercase` returns for a text.
pub uninterp spec fn uppercase_of(s: Seq<char>) -> Seq<char>;

/// Relies on `str::to_uppercase`: the upper-case form depends on the text alone.
#[verifier::external_body]
fn uppercase(s: &str) -> (r: String)
    ensures
        r@ == uppercase_of(s@),
{
    s.to_uppercase()
}

impl USState {
    /// Position in the alphabetical listing.
    pub open spec fn index_spec(self) -> int {
        match self {
            USState::Alabama => 0,
            USState::Alaska => 1,
            USState::Arizona => 2,
            USState::Arkansas => 3,
            USState::California => 4,
            USState::Colorado => 5,
            USState::Connecticut => 6,
            USState::Delaware => 7,
            USState::Florida => 8,
            USState::Georgia => 9,
            USState::Hawaii => 10,
            USState::Idaho => 11,
            USState::Illinois => 12,
            USState::Indiana => 13,
            USState::Iowa => 14,
            USState::Kansas => 15,
            USState::Kentucky => 16,
            USState::Louisiana => 17,
            USState::Maine => 18,
            USState::Maryland => 19,
            USState::Massachusetts => 20,
            USState::Michigan => 21,
            USState::Minnesota => 22,
            USState::Mississippi => 23,
            USState::Missouri => 24,
            USState::Montana => 25,
            USState::Nebraska => 26,
            USState::Nevada => 27,
            USState::NewHampshire => 28,
            USState::NewJersey => 29,
            USState::NewMexico => 30,
            USState::NewYork => 31,
            USState::NorthCarolina => 32,
            USState::NorthDakota => 33,
            USState::Ohio => 34,
            USState::Oklahoma => 35,
            USState::Oregon => 36,
            USState::Pennsylvania => 37,
            USState::RhodeIsland => 38,
            USState::SouthCarolina => 39,
            USState::SouthDakota => 40,
            USState::Tennessee => 41,
            USState::Texas => 42,
            USState::Utah => 43,
            USState::Vermont => 44,
            USState::Virginia => 45,
            USState::Washington => 46,
            USState::WashingtonDC => 47,
            USState::WestVirginia => 48,
            USState::Wisconsin => 49,
            USState::Wyoming => 50,
        }
    }

    /// Position in the alphabetical listing.
    pub fn index(&self) -> (r: usize)
        ensures
            r == self.index_spec(),
            r < STATE_COUNT,
    {
        match self {
            USState::Alabama => 0,
            USState::Alaska => 1,
            USState::Arizona => 2,
            USState::Arkansas => 3,
            USState::California => 4,
            USState::Colorado => 5,
            USState::Connecticut => 6,
            USState::Delaware => 7,
            USState::Florida => 8,
            USState::Georgia => 9,
            USState::Hawaii => 10,
            USState::Idaho => 11,
            USState::Illinois => 12,
            USState::Indiana => 13,
            USState::Iowa => 14,
            USState::Kansas => 15,
            USState::Kentucky => 16,
            USState::Louisiana => 17,
            USState::Maine => 18,
            USState::Maryland => 19,
            USState::Massachusetts => 20,
            USState::Michigan => 21,
            USState::Minnesota => 22,
            USState::Mississippi => 23,
            USState::Missouri => 24,
            USState::Montana => 25,
            USState::Nebraska => 26,
            USState::Nevada => 27,
            USState::NewHampshire => 28,
            USState::NewJersey => 29,
            USState::NewMexico => 30,
            USState::NewYork => 31,
            USState::NorthCarolina => 32,
            USState::NorthDakota => 33,
            USState::Ohio => 34,
            USState::Oklahoma => 35,
            USState::Oregon => 36,
            USState::Pennsylvania => 37,
            USState::RhodeIsland => 38,
            USState::SouthCarolina => 39,
            USState::SouthDakota => 40,
            USState::Tennessee => 41,
            USState::Texas => 42,
            USState::Utah => 43,
            USState::Vermont => 44,
            USState::Virginia => 45,
            USState::Washington => 46,
            USState::WashingtonDC => 47,
            USState::WestVirginia => 48,
            USState::Wisconsin => 49,
            USState::Wyoming => 50,
        }
    }

    /// The jurisdiction at a position of the alphabetical listing.
    pub fn from_index(i: usize) -> (r: USState)
        requires
            i < STATE_COUNT,
        ensures
            r.index_spec() == i,
    {
        match i {
            0 => USState::Alabama,
            1 => USState::Alaska,
            2 => USState::Arizona,
            3 => USState::Arkansas,
            4 => USState::California,
            5 => USState::Colorado,
            6 => USState::Connecticut,
            7 => USState::Delaware,
            8 => USState::Florida,
            9 => USState::Georgia,
            10 => USState::Hawaii,
            11 => USState::Idaho,
            12 => USState::Illinois,
            13 => USState::Indiana,
            14 => USState::Iowa,
            15 => USState::Kansas,
            16 => USState::Kentucky,
            17 => USState::Louisiana,
            18 => USState::Maine,
            19 => USState::Maryland,
            20 => USState::Massachusetts,
            21 => USState::Michigan,
            22 => USState::Minnesota,
            23 => USState::Mississippi,
            24 => USState::Missouri,
            25 => USState::Montana,
            26 => USState::Nebraska,
            27 => USState::Nevada,
            28 => USState::NewHampshire,
            29 => USState::NewJersey,
            30 => USState::NewMexico,
            31 => USState::NewYork,
            32 => USState::NorthCarolina,
            33 => USState::NorthDakota,
            34 => USState::Ohio,
            35 => USState::Oklahoma,
            36 => USState::Oregon,
            37 => USState::Pennsylvania,
            38 => USState::RhodeIsland,
            39 => USState::SouthCarolina,
            40 => USState::SouthDakota,
            41 => USState::Tennessee,
            42 => USState::Texas,
            43 => USState::Utah,
            44 => USState::Vermont,
            45 => USState::Virginia,
            46 => USState::Washington,
            47 => USState::WashingtonDC,
            48 => USState::WestVirginia,
            49 => USState::Wisconsin,
            _ => USState::Wyoming,
        }
    }

    /// Two-letter postal code.
    pub open spec fn code_spec(self) -> Seq<char> {
        match self {
            USState::Alabama => "AL"@,
            USState::Alaska => "AK"@,
            USState::Arizona => "AZ"@,
            USState::Arkansas => "AR"@,
            USState::California => "CA"@,
            USState::Colorado => "CO"@,
            USState::Connecticut => "CT"@,
            USState::Delaware => "DE"@,
            USState::Florida => "FL"@,
            USState::Georgia => "GA"@,
            USState::Hawaii => "HI"@,
            USState::Idaho => "ID"@,
            USState::Illinois => "IL"@,
            USState::Indiana => "IN"@,
            USState::Iowa => "IA"@,
            USState::Kansas => "KS"@,
            USState::Kentucky => "KY"@,
            USState::Louisiana => "LA"@,
            USState::Maine => "ME"@,
            USState::Maryland => "MD"@,
            USState::Massachusetts => "MA"@,
            USState::Michigan => "MI"@,
            USState::Minnesota => "MN"@,
            USState::Mississippi => "MS"@,
            USState::Missouri => "MO"@,
            USState::Montana => "MT"@,
            USState::Nebraska => "NE"@,
            USState::Nevada => "NV"@,
            USState::NewHampshire => "NH"@,
            USState::NewJersey => "NJ"@,
            USState::NewMexico => "NM"@,
            USState::NewYork => "NY"@,
            USState::NorthCarolina => "NC"@,
            USState::NorthDakota => "ND"@,
            USState::Ohio => "OH"@,
            USState::Oklahoma => "OK"@,
            USState::Oregon => "OR"@,
            USState::Pennsylvania => "PA"@,
            USState::RhodeIsland => "RI"@,
            USState::SouthCarolina => "SC"@,
            USState::SouthDakota => "SD"@,
            USState::Tennessee => "TN"@,
            USState::Texas => "TX"@,
            USState::Utah => "UT"@,
            USState::Vermont => "VT"@,
            USState::Virginia => "VA"@,
            USState::Washington => "WA"@,
            USState::WashingtonDC => "DC"@,
            USState::WestVirginia => "WV"@,
            USState::Wisconsin => "WI"@,
            USState::Wyoming => "WY"@,
        }
    }

    /// Two-letter postal code.
    pub fn code(&self) -> (r: &'static str)
        ensures
            r@ == self.code_spec(),
    {
        match self {
            USState::Alabama => "AL",
            USState::Alaska => "AK",
            USState::Arizona => "AZ",
            USState::Arkansas => "AR",
            USState::California => "CA",
            USState::Colorado => "CO",
            USState::Connecticut => "CT",
            USState::Delaware => "DE",
            USState::Florida => "FL",
            USState::Georgia => "GA",
            USState::Hawaii => "HI",
            USState::Idaho => "ID",
            USState::Illinois => "IL",
            USState::Indiana => "IN",
            USState::Iowa => "IA",
            USState::Kansas => "KS",
            USState::Kentucky => "KY",
            USState::Louisiana => "LA",
            USState::Maine => "ME",
            USState::Maryland => "MD",
            USState::Massachusetts => "MA",
            USState::Michigan => "MI",
            USState::Minnesota => "MN",
            USState::Mississippi => "MS",
            USState::Missouri => "MO",
            USState::Montana => "MT",
            USState::Nebraska => "NE",
            USState::Nevada => "NV",
            USState::NewHampshire => "NH",
            USState::NewJersey => "NJ",
            USState::NewMexico => "NM",
            USState::NewYork => "NY",
            USState::NorthCarolina => "NC",
            USState::NorthDakota => "ND",
            USState::Ohio => "OH",
            USState::Oklahoma => "OK",
            USState::Oregon => "OR",
            USState::Pennsylvania => "PA",
            USState::RhodeIsland => "RI",
            USState::SouthCarolina => "SC",
            USState::SouthDakota => "SD",
            USState::Tennessee => "TN",
            USState::Texas => "TX",
            USState::Utah => "UT",
            USState::Vermont => "VT",
            USState::Virginia => "VA",
            USState::Washington => "WA",
            USState::WashingtonDC => "DC",
            USState::WestVirginia => "WV",
            USState::Wisconsin => "WI",
            USState::Wyoming => "WY",
        }
    }

    /// Display name.
    pub open spec fn name_spec(self) -> Seq<char> {
        match self {
            USState::Alabama => "Alabama"@,
            USState::Alaska => "Alaska"@,
            USState::Arizona => "Arizona"@,
            USState::Arkansas => "Arkansas"@,
            USState::California => "California"@,
            USState::Colorado => "Colorado"@,
            USState::Connecticut => "Connecticut"@,
            USState::Delaware => "Delaware"@,
            USState::Florida => "Florida"@,
            USState::Georgia => "Georgia"@,
            USState::Hawaii => "Hawaii"@,
            USState::Idaho => "Idaho"@,
            USState::Illinois => "Illinois"@,
            USState::Indiana => "Indiana"@,
            USState::Iowa => "Iowa"@,
            USState::Kansas => "Kansas"@,
            USState::Kentucky => "Kentucky"@,
            USState::Louisiana => "Louisiana"@,
            USState::Maine => "Maine"@,
            USState::Maryland => "Maryland"@,
            USState::Massachusetts => "Massachusetts"@,
            USState::Michigan => "Michigan"@,
            USState::Minnesota => "Minnesota"@,
            USState::Mississippi => "Mississippi"@,
            USState::Missouri => "Missouri"@,
            USState::Montana => "Montana"@,
            USState::Nebraska => "Nebraska"@,
            USState::Nevada => "Nevada"@,
            USState::NewHampshire => "New Hampshire"@,
            USState::NewJersey => "New Jersey"@,
            USState::NewMexico => "New Mexico"@,
            USState::NewYork => "New York"@,
            USState::NorthCarolina => "North Carolina"@,
            USState::NorthDakota => "North Dakota"@,
            USState::Ohio => "Ohio"@,
            USState::Oklahoma => "Oklahoma"@,
            USState::Oregon => "Oregon"@,
            USState::Pennsylvania => "Pennsylvania"@,
            USState::RhodeIsland => "Rhode Island"@,
            USState::SouthCarolina => "South Carolina"@,
            USState::SouthDakota => "South Dakota"@,
            USState::Tennessee => "Tennessee"@,
            USState::Texas => "Texas"@,
            USState::Utah => "Utah"@,
            USState::Vermont => "Vermont"@,
            USState::Virginia => "Virginia"@,
            USState::Washington => "Washington"@,
            USState::WashingtonDC => "Washington D.C."@,
            USState::WestVirginia => "West Virginia"@,
            USState::Wisconsin => "Wisconsin"@,
            USState::Wyoming => "Wyoming"@,
        }
    }

    /// Display name.
    pub fn name(&self) -> (r: &'static str)
        ensures
            r@ == self.name_spec(),
    {
        match self {
            USState::Alabama => "Alabama",
            USState::Alaska => "Alaska",
            USState::Arizona => "Arizona",
            USState::Arkansas => "Arkansas",
            USState::California => "California",
            USState::Colorado => "Colorado",
            USState::Connecticut => "Connecticut",
            USState::Delaware => "Delaware",
            USState::Florida => "Florida",
            USState::Georgia => "Georgia",
            USState::Hawaii => "Hawaii",
            USState::Idaho => "Idaho",
            USState::Illinois => "Illinois",
            USState::Indiana => "Indiana",
            USState::Iowa => "Iowa",
            USState::Kansas => "Kansas",
            USState::Kentucky => "Kentucky",
            USState::Louisiana => "Louisiana",
            USState::Maine => "Maine",
            USState::Maryland => "Maryland",
            USState::Massachusetts => "Massachusetts",
            USState::Michigan => "Michigan",
            USState::Minnesota => "Minnesota",
            USState::Mississippi => "Mississippi",
            USState::Missouri => "Missouri",
            USState::Montana => "Montana",
            USState::Nebraska => "Nebraska",
            USState::Nevada => "Nevada",
            USState::NewHampshire => "New Hampshire",
            USState::NewJersey => "New Jersey",
            USState::NewMexico => "New Mexico",
            USState::NewYork => "New York",
            USState::NorthCarolina => "North Carolina",
            USState::NorthDakota => "North Dakota",
            USState::Ohio => "Ohio",
            USState::Oklahoma => "Oklahoma",
            USState::Oregon => "Oregon",
            USState::Pennsylvania => "Pennsylvania",
            USState::RhodeIsland => "Rhode Island",
            USState::SouthCarolina => "South Carolina",
            USState::SouthDakota => "South Dakota",
            USState::Tennessee => "Tennessee",
            USState::Texas => "Texas",
            USState::Utah => "Utah",
            USState::Vermont => "Vermont",
            USState::Virginia => "Virginia",
            USState::Washington => "Washington",
            USState::WashingtonDC => "Washington D.C.",
            USState::WestVirginia => "West Virginia",
            USState::Wisconsin => "Wisconsin",
            USState::Wyoming => "Wyoming",
        }
    }

    pub open spec fn has_no_income_tax_spec(self) -> bool {
        matches!(
            self,
            USState::Alaska | USState::Florida | USState::Nevada | USState::NewHampshire
                | USState::SouthDakota | USState::Tennessee | USState::Texas | USState::Washington
                | USState::Wyoming
        )
    }

    pub open spec fn has_flat_tax_spec(self) -> bool {
        matches!(
            self,
            USState::Colorado | USState::Illinois | USState::Indiana | USState::Kentucky
                | USState::Massachusetts | USState::Michigan | USState::NorthCarolina
                | USState::Pennsylvania | USState::Utah
        )
    }

    pub open spec fn has_sdi_spec(self) -> bool {
        matches!(
            self,
            USState::California | USState::Hawaii | USState::NewJersey | USState::NewYork
                | USState::RhodeIsland
        )
    }

    pub open spec fn has_local_tax_spec(self) -> bool {
        matches!(
            self,
            USState::Alabama | USState::Colorado | USState::Delaware | USState::Indiana
                | USState::Iowa | USState::Kentucky | USState::Maryland | USState::Michigan
                | USState::Missouri | USState::NewJersey | USState::NewYork | USState::Ohio
                | USState::Oregon | USState::Pennsylvania | USState::WestVirginia
        )
    }

    /// Jurisdictions that levy no income tax.
    pub fn has_no_income_tax(&self) -> (r: bool)
        ensures
            r == self.has_no_income_tax_spec(),
    {
        matches!(
            self,
            USState::Alaska | USState::Florida | USState::Nevada | USState::NewHampshire
                | USState::SouthDakota | USState::Tennessee | USState::Texas | USState::Washington
                | USState::Wyoming
        )
    }

    /// Jurisdictions with a single flat income-tax rate.
    pub fn has_flat_tax(&self) -> (r: bool)
        ensures
            r == self.has_flat_tax_spec(),
    {
        matches!(
            self,
            USState::Colorado | USState::Illinois | USState::Indiana | USState::Kentucky
                | USState::Massachusetts | USState::Michigan | USState::NorthCarolina
                | USState::Pennsylvania | USState::Utah
        )
    }

    /// Jurisdictions with a disability-insurance tax.
    pub fn has_sdi(&self) -> (r: bool)
        ensures
            r == self.has_sdi_spec(),
    {
        matches!(
            self,
            USState::California | USState::Hawaii | USState::NewJersey | USState::NewYork
                | USState::RhodeIsland
        )
    }

    /// Jurisdictions with local income taxes.
    pub fn has_local_tax(&self) -> (r: bool)
        ensures
            r == self.has_local_tax_spec(),
    {
        matches!(
            self,
            USState::Alabama | USState::Colorado | USState::Delaware | USState::Indiana
                | USState::Iowa | USState::Kentucky | USState::Maryland | USState::Michigan
                | USState::Missouri | USState::NewJersey | USState::NewYork | USState::Ohio
                | USState::Oregon | USState::Pennsylvania | USState::WestVirginia
        )
    }

    /// Every jurisdiction, in alphabetical order.
    pub fn all() -> (r: Vec<USState>)
        ensures
            r.len() == STATE_COUNT,
            forall|i: int| 0 <= i < r.len() ==> (#[trigger] r@[i]).index_spec() == i,
    {
        let mut r: Vec<USState> = Vec::new();
        let mut i: usize = 0;
        while i < STATE_COUNT
            invariant
                i <= STATE_COUNT,
                r.len() == i,
                forall|j: int| 0 <= j < r.len() ==> (#[trigger] r@[j]).index_spec() == j,
            decreases STATE_COUNT - i,
        {
            r.push(USState::from_index(i));
            i = i + 1;
        }
        r
    }

    /// The jurisdiction with a postal code, in either case.
    pub fn from_code(code: &str) -> (r: Option<USState>)
        ensures
            r matches Some(s) ==> s.code_spec() == uppercase_of(code@),
            r is None ==> forall|s: USState| #[trigger] s.code_spec() != uppercase_of(code@),
    {
        let upper = uppercase(code);
        let mut i: usize = 0;
        while i < STATE_COUNT
            invariant
                i <= STATE_COUNT,
                upper@ == uppercase_of(code@),
                forall|s: USState| #[trigger] s.index_spec() < i ==> s.code_spec() != upper@,
            decreases STATE_COUNT - i,
        {
            let s = USState::from_index(i);
            let c = s.code().to_owned();
            if c == upper {
                return Some(s);
            }
            i = i + 1;
        }
        proof {
            assert forall|s: USState| #[trigger] s.code_spec() != uppercase_of(code@) by {
                assert(s.index_spec() < STATE_COUNT);
            }
        }
        None
    }
}

} // verus!
