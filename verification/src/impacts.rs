//! Impact categories of the supported life cycle impact assessment methods.
use vstd::prelude::*;
use crate::mapped_vector::MappedVector;
use crate::text::same_text;

verus! {

/// Categories of the Environmental Footprint 3.1 method.
#[derive(PartialEq, Eq, Structural, Clone, Copy, Debug, Hash)]
pub enum EF31 {
    Gwp100,
    Acidification,
    BiogenicGwp100,
    FossilGwp100,
    ClimateChangeLandUse,
    OzoneDepletion,
    ParticulMatter,
    EcotoxicityFreshwater,
    EcotoxicityFreshwaterInorganics,
    EcotoxicityFreshwaterOrganics,
    EutrophicationMarine,
    EutrophicationFreshwater,
    EutrophicationTerrestrial,
    HumanToxicityCarcinogenic,
    HumanToxicityCarcinogenicInorganics,
    HumanToxicityCarcinogenicOrganics,
    HumanToxicityNonCacrinogenic,
    HumanToxicityNonCacinogenicInorganics,
    HumanToxicityNonCacinogenicOrganics,
    IonisingRadiation,
    LandUse,
    PhotochemicalOxidant,
    EnergyResourcesNonRenewable,
    ResourcesMetalsMinerals,
    WaterUse,
}

/// Categories of the CML 4.8 (2016) method.
#[derive(PartialEq, Eq, Structural, Clone, Copy, Debug, Hash)]
pub enum CML {
    Gwp100,
    ResourcesMetalsMinerals,
    EnergyResourcesNonRenewable,
    OzoneDepletion,
    HumanToxicity,
    EcotoxicityFreshwater,
    EcotoxicityMarine,
    EcotoxicityTerrestrial,
    PhotochemicalOxidantFormation,
    Acidification,
    Eutrophication,
}

/// Categories of the TRACI 2.1 method.
#[derive(PartialEq, Eq, Structural, Clone, Copy, Debug, Hash)]
pub enum TRACI {
    Gwp100,
    Acidification,
    ParticulMatter,
    OzoneDepletion,
    PhotochemicalOxidant,
    Eutrophication,
    EcotoxicityFreshwater,
    HumanToxicityCarcinogenic,
    HumanToxicityNonCarcinogenic,
}

/// An impact category of one of the supported methods.
#[derive(PartialEq, Eq, Structural, Clone, Copy, Debug, Hash)]
pub enum ImpactCategory {
    EF31(EF31),
    CML(CML),
    TRACI(TRACI),
}

/// A supported impact assessment method.
#[derive(PartialEq, Eq, Structural, Clone, Copy, Debug, Hash)]
pub enum ImpactMethod {
    EF31,
    CML,
    TRACI,
}

/// The Environmental Footprint 3.1 category declared at position `i` (the last one past the end).
pub open spec fn ef31_at(i: int) -> EF31 {
    if i == 0 {
        EF31::Gwp100
    } else if i == 1 {
        EF31::Acidification
    } else if i == 2 {
        EF31::BiogenicGwp100
    } else if i == 3 {
        EF31::FossilGwp100
    } else if i == 4 {
        EF31::ClimateChangeLandUse
    } else if i == 5 {
        EF31::OzoneDepletion
    } else if i == 6 {
        EF31::ParticulMatter
    } else if i == 7 {
        EF31::EcotoxicityFreshwater
    } else if i == 8 {
        EF31::EcotoxicityFreshwaterInorganics
    } else if i == 9 {
        EF31::EcotoxicityFreshwaterOrganics
    } else if i == 10 {
        EF31::EutrophicationMarine
    } else if i == 11 {
        EF31::EutrophicationFreshwater
    } else if i == 12 {
        EF31::EutrophicationTerrestrial
    } else if i == 13 {
        EF31::HumanToxicityCarcinogenic
    } else if i == 14 {
        EF31::HumanToxicityCarcinogenicInorganics
    } else if i == 15 {
        EF31::HumanToxicityCarcinogenicOrganics
    } else if i == 16 {
        EF31::HumanToxicityNonCacrinogenic
    } else if i == 17 {
        EF31::HumanToxicityNonCacinogenicInorganics
    } else if i == 18 {
        EF31::HumanToxicityNonCacinogenicOrganics
    } else if i == 19 {
        EF31::IonisingRadiation
    } else if i == 20 {
        EF31::LandUse
    } else if i == 21 {
        EF31::PhotochemicalOxidant
    } else if i == 22 {
        EF31::EnergyResourcesNonRenewable
    } else if i == 23 {
        EF31::ResourcesMetalsMinerals
    } else {
        EF31::WaterUse
    }
}

/// Declaration position of a Environmental Footprint 3.1 category.
pub open spec fn ef31_position(c: EF31) -> int {
    match c {
        EF31::Gwp100 => 0,
        EF31::Acidification => 1,
        EF31::BiogenicGwp100 => 2,
        EF31::FossilGwp100 => 3,
        EF31::ClimateChangeLandUse => 4,
        EF31::OzoneDepletion => 5,
        EF31::ParticulMatter => 6,
        EF31::EcotoxicityFreshwater => 7,
        EF31::EcotoxicityFreshwaterInorganics => 8,
        EF31::EcotoxicityFreshwaterOrganics => 9,
        EF31::EutrophicationMarine => 10,
        EF31::EutrophicationFreshwater => 11,
        EF31::EutrophicationTerrestrial => 12,
        EF31::HumanToxicityCarcinogenic => 13,
        EF31::HumanToxicityCarcinogenicInorganics => 14,
        EF31::HumanToxicityCarcinogenicOrganics => 15,
        EF31::HumanToxicityNonCacrinogenic => 16,
        EF31::HumanToxicityNonCacinogenicInorganics => 17,
        EF31::HumanToxicityNonCacinogenicOrganics => 18,
        EF31::IonisingRadiation => 19,
        EF31::LandUse => 20,
        EF31::PhotochemicalOxidant => 21,
        EF31::EnergyResourcesNonRenewable => 22,
        EF31::ResourcesMetalsMinerals => 23,
        EF31::WaterUse => 24,
    }
}

/// Number of Environmental Footprint 3.1 categories.
pub open spec fn ef31_count() -> nat {
    25
}

/// The Environmental Footprint 3.1 categories, in declaration order.
pub open spec fn ef31_all() -> Seq<EF31> {
    Seq::new(ef31_count(), |i: int| ef31_at(i))
}

proof fn lemma_ef31_positions()
    ensures
        forall|i: int| 0 <= i < ef31_count() ==> #[trigger] ef31_position(ef31_at(i)) == i,
        forall|c: EF31| 0 <= #[trigger] ef31_position(c) < ef31_count() && ef31_at(ef31_position(c)) == c,
{
}

/// The CML 4.8 (2016) category declared at position `i` (the last one past the end).
pub open spec fn cml_at(i: int) -> CML {
    if i == 0 {
        CML::Gwp100
    } else if i == 1 {
        CML::ResourcesMetalsMinerals
    } else if i == 2 {
        CML::EnergyResourcesNonRenewable
    } else if i == 3 {
        CML::OzoneDepletion
    } else if i == 4 {
        CML::HumanToxicity
    } else if i == 5 {
        CML::EcotoxicityFreshwater
    } else if i == 6 {
        CML::EcotoxicityMarine
    } else if i == 7 {
        CML::EcotoxicityTerrestrial
    } else if i == 8 {
        CML::PhotochemicalOxidantFormation
    } else if i == 9 {
        CML::Acidification
    } else {
        CML::Eutrophication
    }
}

/// Declaration position of a CML 4.8 (2016) category.
pub open spec fn cml_position(c: CML) -> int {
    match c {
        CML::Gwp100 => 0,
        CML::ResourcesMetalsMinerals => 1,
        CML::EnergyResourcesNonRenewable => 2,
        CML::OzoneDepletion => 3,
        CML::HumanToxicity => 4,
        CML::EcotoxicityFreshwater => 5,
        CML::EcotoxicityMarine => 6,
        CML::EcotoxicityTerrestrial => 7,
        CML::PhotochemicalOxidantFormation => 8,
        CML::Acidification => 9,
        CML::Eutrophication => 10,
    }
}

/// Number of CML 4.8 (2016) categories.
pub open spec fn cml_count() -> nat {
    11
}

/// The CML 4.8 (2016) categories, in declaration order.
pub open spec fn cml_all() -> Seq<CML> {
    Seq::new(cml_count(), |i: int| cml_at(i))
}

proof fn lemma_cml_positions()
    ensures
        forall|i: int| 0 <= i < cml_count() ==> #[trigger] cml_position(cml_at(i)) == i,
        forall|c: CML| 0 <= #[trigger] cml_position(c) < cml_count() && cml_at(cml_position(c)) == c,
{
}

/// The TRACI 2.1 category declared at position `i` (the last one past the end).
pub open spec fn traci_at(i: int) -> TRACI {
    if i == 0 {
        TRACI::Gwp100
    } else if i == 1 {
        TRACI::Acidification
    } else if i == 2 {
        TRACI::ParticulMatter
    } else if i == 3 {
        TRACI::OzoneDepletion
    } else if i == 4 {
        TRACI::PhotochemicalOxidant
    } else if i == 5 {
        TRACI::Eutrophication
    } else if i == 6 {
        TRACI::EcotoxicityFreshwater
    } else if i == 7 {
        TRACI::HumanToxicityCarcinogenic
    } else {
        TRACI::HumanToxicityNonCarcinogenic
    }
}

/// Declaration position of a TRACI 2.1 category.
pub open spec fn traci_position(c: TRACI) -> int {
    match c {
        TRACI::Gwp100 => 0,
        TRACI::Acidification => 1,
        TRACI::ParticulMatter => 2,
        TRACI::OzoneDepletion => 3,
        TRACI::PhotochemicalOxidant => 4,
        TRACI::Eutrophication => 5,
        TRACI::EcotoxicityFreshwater => 6,
        TRACI::HumanToxicityCarcinogenic => 7,
        TRACI::HumanToxicityNonCarcinogenic => 8,
    }
}

/// Number of TRACI 2.1 categories.
pub open spec fn traci_count() -> nat {
    9
}

/// The TRACI 2.1 categories, in declaration order.
pub open spec fn traci_all() -> Seq<TRACI> {
    Seq::new(traci_count(), |i: int| traci_at(i))
}

proof fn lemma_traci_positions()
    ensures
        forall|i: int| 0 <= i < traci_count() ==> #[trigger] traci_position(traci_at(i)) == i,
        forall|c: TRACI| 0 <= #[trigger] traci_position(c) < traci_count() && traci_at(traci_position(c)) == c,
{
}

/// The impact categories of `method`, in the order of their rows.
pub open spec fn method_categories(method: ImpactMethod) -> Seq<ImpactCategory> {
    match method {
        ImpactMethod::EF31 => ef31_all().map_values(|c: EF31| ImpactCategory::EF31(c)),
        ImpactMethod::CML => cml_all().map_values(|c: CML| ImpactCategory::CML(c)),
        ImpactMethod::TRACI => traci_all().map_values(|c: TRACI| ImpactCategory::TRACI(c)),
    }
}

/// The method that a category belongs to.
pub open spec fn category_method(c: ImpactCategory) -> ImpactMethod {
    match c {
        ImpactCategory::EF31(_) => ImpactMethod::EF31,
        ImpactCategory::CML(_) => ImpactMethod::CML,
        ImpactCategory::TRACI(_) => ImpactMethod::TRACI,
    }
}

/// Every value of `values` is one that `V::default()` may return.
pub open spec fn all_default<V: Default>(values: Seq<V>) -> bool {
    forall|i: int| 0 <= i < values.len() ==> V::default.ensures((), #[trigger] values[i])
}

/// A vector with one row per label, each holding `V::default()`.
fn zeros<V: Default + Copy>(labels: Vec<ImpactCategory>) -> (r: MappedVector<ImpactCategory, V>)
    ensures
        r.mapping@ == labels@,
        r.values@.len() == labels@.len(),
        all_default(r.values@),
{
    let mut values: Vec<V> = Vec::new();
    let n = labels.len();
    let mut i: usize = 0;
    while i < n
        invariant
            n == labels@.len(),
            i <= n,
            values@.len() == i,
            all_default(values@),
        decreases n - i,
    {
        let zero = V::default();
        values.push(zero);
        i = i + 1;
    }
    MappedVector::new(labels, values)
}

impl EF31 {
    /// The category declared at position `i`.
    pub fn at(i: usize) -> (r: EF31)
        requires
            i < ef31_count(),
        ensures
            r == ef31_at(i as int),
    {
        match i {
            0 => EF31::Gwp100,
            1 => EF31::Acidification,
            2 => EF31::BiogenicGwp100,
            3 => EF31::FossilGwp100,
            4 => EF31::ClimateChangeLandUse,
            5 => EF31::OzoneDepletion,
            6 => EF31::ParticulMatter,
            7 => EF31::EcotoxicityFreshwater,
            8 => EF31::EcotoxicityFreshwaterInorganics,
            9 => EF31::EcotoxicityFreshwaterOrganics,
            10 => EF31::EutrophicationMarine,
            11 => EF31::EutrophicationFreshwater,
            12 => EF31::EutrophicationTerrestrial,
            13 => EF31::HumanToxicityCarcinogenic,
            14 => EF31::HumanToxicityCarcinogenicInorganics,
            15 => EF31::HumanToxicityCarcinogenicOrganics,
            16 => EF31::HumanToxicityNonCacrinogenic,
            17 => EF31::HumanToxicityNonCacinogenicInorganics,
            18 => EF31::HumanToxicityNonCacinogenicOrganics,
            19 => EF31::IonisingRadiation,
            20 => EF31::LandUse,
            21 => EF31::PhotochemicalOxidant,
            22 => EF31::EnergyResourcesNonRenewable,
            23 => EF31::ResourcesMetalsMinerals,
            _ => EF31::WaterUse,
        }
    }

    /// All Environmental Footprint 3.1 categories, in declaration order.
    pub fn all() -> (r: Vec<EF31>)
        ensures
            r@ == ef31_all(),
    {
        let mut r: Vec<EF31> = Vec::new();
        let mut i: usize = 0;
        while i < 25
            invariant
                i <= 25,
                r@ == ef31_all().take(i as int),
            decreases 25 - i,
        {
            r.push(EF31::at(i));
            i = i + 1;
            assert(r@ =~= ef31_all().take(i as int));
        }
        assert(r@ =~= ef31_all());
        r
    }

    /// The categories of this method as impact categories, in order.
    pub fn categories() -> (r: Vec<ImpactCategory>)
        ensures
            r@ == method_categories(ImpactMethod::EF31),
    {
        let cats = EF31::all();
        let mut labels: Vec<ImpactCategory> = Vec::new();
        let n = cats.len();
        let mut i: usize = 0;
        while i < n
            invariant
                n == cats@.len(),
                i <= n,
                labels@ == cats@.take(i as int).map_values(|c: EF31| ImpactCategory::EF31(c)),
            decreases n - i,
        {
            labels.push(ImpactCategory::EF31(cats[i]));
            i = i + 1;
            assert(cats@.take(i as int) == cats@.take(i - 1).push(cats@[i - 1]));
        }
        assert(cats@.take(n as int) == cats@);
        labels
    }

    /// A vector with one row per Environmental Footprint 3.1 category, each holding `V::default()`.
    pub fn get_empty_vector<V: Default + Copy>() -> (r: MappedVector<ImpactCategory, V>)
        ensures
            r.mapping@ == method_categories(ImpactMethod::EF31),
            r.values@.len() == r.mapping@.len(),
            r.well_formed(),
            all_default(r.values@),
    {
        proof {
            law_method_categories(ImpactMethod::EF31);
        }
        zeros(EF31::categories())
    }
}

impl CML {
    /// The category declared at position `i`.
    pub fn at(i: usize) -> (r: CML)
        requires
            i < cml_count(),
        ensures
            r == cml_at(i as int),
    {
        match i {
            0 => CML::Gwp100,
            1 => CML::ResourcesMetalsMinerals,
            2 => CML::EnergyResourcesNonRenewable,
            3 => CML::OzoneDepletion,
            4 => CML::HumanToxicity,
            5 => CML::EcotoxicityFreshwater,
            6 => CML::EcotoxicityMarine,
            7 => CML::EcotoxicityTerrestrial,
            8 => CML::PhotochemicalOxidantFormation,
            9 => CML::Acidification,
            _ => CML::Eutrophication,
        }
    }

    /// All CML 4.8 (2016) categories, in declaration order.
    pub fn all() -> (r: Vec<CML>)
        ensures
            r@ == cml_all(),
    {
        let mut r: Vec<CML> = Vec::new();
        let mut i: usize = 0;
        while i < 11
            invariant
                i <= 11,
                r@ == cml_all().take(i as int),
            decreases 11 - i,
        {
            r.push(CML::at(i));
            i = i + 1;
            assert(r@ =~= cml_all().take(i as int));
        }
        assert(r@ =~= cml_all());
        r
    }

    /// The categories of this method as impact categories, in order.
    pub fn categories() -> (r: Vec<ImpactCategory>)
        ensures
            r@ == method_categories(ImpactMethod::CML),
    {
        let cats = CML::all();
        let mut labels: Vec<ImpactCategory> = Vec::new();
        let n = cats.len();
        let mut i: usize = 0;
        while i < n
            invariant
                n == cats@.len(),
                i <= n,
                labels@ == cats@.take(i as int).map_values(|c: CML| ImpactCategory::CML(c)),
            decreases n - i,
        {
            labels.push(ImpactCategory::CML(cats[i]));
            i = i + 1;
            assert(cats@.take(i as int) == cats@.take(i - 1).push(cats@[i - 1]));
        }
        assert(cats@.take(n as int) == cats@);
        labels
    }

    /// A vector with one row per CML 4.8 (2016) category, each holding `V::default()`.
    pub fn get_empty_vector<V: Default + Copy>() -> (r: MappedVector<ImpactCategory, V>)
        ensures
            r.mapping@ == method_categories(ImpactMethod::CML),
            r.values@.len() == r.mapping@.len(),
            r.well_formed(),
            all_default(r.values@),
    {
        proof {
            law_method_categories(ImpactMethod::CML);
        }
        zeros(CML::categories())
    }
}

impl TRACI {
    /// The category declared at position `i`.
    pub fn at(i: usize) -> (r: TRACI)
        requires
            i < traci_count(),
        ensures
            r == traci_at(i as int),
    {
        match i {
            0 => TRACI::Gwp100,
            1 => TRACI::Acidification,
            2 => TRACI::ParticulMatter,
            3 => TRACI::OzoneDepletion,
            4 => TRACI::PhotochemicalOxidant,
            5 => TRACI::Eutrophication,
            6 => TRACI::EcotoxicityFreshwater,
            7 => TRACI::HumanToxicityCarcinogenic,
            _ => TRACI::HumanToxicityNonCarcinogenic,
        }
    }

    /// All TRACI 2.1 categories, in declaration order.
    pub fn all() -> (r: Vec<TRACI>)
        ensures
            r@ == traci_all(),
    {
        let mut r: Vec<TRACI> = Vec::new();
        let mut i: usize = 0;
        while i < 9
            invariant
                i <= 9,
                r@ == traci_all().take(i as int),
            decreases 9 - i,
        {
            r.push(TRACI::at(i));
            i = i + 1;
            assert(r@ =~= traci_all().take(i as int));
        }
        assert(r@ =~= traci_all());
        r
    }

    /// The categories of this method as impact categories, in order.
    pub fn categories() -> (r: Vec<ImpactCategory>)
        ensures
            r@ == method_categories(ImpactMethod::TRACI),
    {
        let cats = TRACI::all();
        let mut labels: Vec<ImpactCategory> = Vec::new();
        let n = cats.len();
        let mut i: usize = 0;
        while i < n
            invariant
                n == cats@.len(),
                i <= n,
                labels@ == cats@.take(i as int).map_values(|c: TRACI| ImpactCategory::TRACI(c)),
            decreases n - i,
        {
            labels.push(ImpactCategory::TRACI(cats[i]));
            i = i + 1;
            assert(cats@.take(i as int) == cats@.take(i - 1).push(cats@[i - 1]));
        }
        assert(cats@.take(n as int) == cats@);
        labels
    }

    /// A vector with one row per TRACI 2.1 category, each holding `V::default()`.
    pub fn get_empty_vector<V: Default + Copy>() -> (r: MappedVector<ImpactCategory, V>)
        ensures
            r.mapping@ == method_categories(ImpactMethod::TRACI),
            r.values@.len() == r.mapping@.len(),
            r.well_formed(),
            all_default(r.values@),
    {
        proof {
            law_method_categories(ImpactMethod::TRACI);
        }
        zeros(TRACI::categories())
    }
}

/// Every method lists each of its own categories exactly once, and no
/// category of another method.
pub proof fn law_method_categories(method: ImpactMethod)
    ensures
        method_categories(method).no_duplicates(),
        forall|c: ImpactCategory|
            method_categories(method).contains(c) <==> category_method(c) == method,
{
    lemma_ef31_positions();
    lemma_cml_positions();
    lemma_traci_positions();
    let s = method_categories(method);
    assert forall|i: int, j: int| 0 <= i < s.len() && 0 <= j < s.len() && i != j implies s[i]
        != s[j] by {
        match method {
            ImpactMethod::EF31 => {
                assert(ef31_position(ef31_at(i)) == i);
                assert(ef31_position(ef31_at(j)) == j);
            },
            ImpactMethod::CML => {
                assert(cml_position(cml_at(i)) == i);
                assert(cml_position(cml_at(j)) == j);
            },
            ImpactMethod::TRACI => {
                assert(traci_position(traci_at(i)) == i);
                assert(traci_position(traci_at(j)) == j);
            },
        }
    }
    assert forall|c: ImpactCategory| category_method(c) == method implies s.contains(c) by {
        match c {
            ImpactCategory::EF31(e) => {
                assert(s[ef31_position(e)] == c);
            },
            ImpactCategory::CML(e) => {
                assert(s[cml_position(e)] == c);
            },
            ImpactCategory::TRACI(e) => {
                assert(s[traci_position(e)] == c);
            },
        }
    }
}

impl ImpactMethod {
    /// The categories of this method, in order.
    pub fn categories(&self) -> (r: Vec<ImpactCategory>)
        ensures
            r@ == method_categories(*self),
    {
        match self {
            ImpactMethod::EF31 => EF31::categories(),
            ImpactMethod::CML => CML::categories(),
            ImpactMethod::TRACI => TRACI::categories(),
        }
    }

    /// A vector with one row per category of this method, each holding
    /// `V::default()`.
    pub fn get_empty_vector<V: Default + Copy>(&self) -> (r: MappedVector<ImpactCategory, V>)
        ensures
            r.mapping@ == method_categories(*self),
            r.values@.len() == r.mapping@.len(),
            r.well_formed(),
            all_default(r.values@),
    {
        match self {
            ImpactMethod::EF31 => EF31::get_empty_vector(),
            ImpactMethod::CML => CML::get_empty_vector(),
            ImpactMethod::TRACI => TRACI::get_empty_vector(),
        }
    }
}

/// The method a method name designates: `ef31`, `cml` or `traci`.
pub open spec fn method_of_name(name: Seq<char>) -> Option<ImpactMethod> {
    if name == "ef31"@ {
        Some(ImpactMethod::EF31)
    } else if name == "cml"@ {
        Some(ImpactMethod::CML)
    } else if name == "traci"@ {
        Some(ImpactMethod::TRACI)
    } else {
        None
    }
}

impl ImpactMethod {
    /// The method named `name`, if it names one.
    pub fn from_name(name: &str) -> (r: Option<ImpactMethod>)
        ensures
            r == method_of_name(name@),
    {
        if same_text(name, "ef31") {
            Some(ImpactMethod::EF31)
        } else if same_text(name, "cml") {
            Some(ImpactMethod::CML)
        } else if same_text(name, "traci") {
            Some(ImpactMethod::TRACI)
        } else {
            None
        }
    }
}

impl ImpactCategory {
    /// A vector with one row per category of the method named `method`
    /// (`ef31`, `cml` or `traci`), each holding `V::default()`.
    pub fn get_empty_vector<V: Default + Copy>(method: &str) -> (r: MappedVector<ImpactCategory, V>)
        requires
            method_of_name(method@) is Some,
        ensures
            r.mapping@ == method_categories(method_of_name(method@).unwrap()),
            r.values@.len() == r.mapping@.len(),
            r.well_formed(),
            all_default(r.values@),
    {
        match ImpactMethod::from_name(method) {
            Some(m) => m.get_empty_vector(),
            None => EF31::get_empty_vector(),
        }
    }
}

} // verus!
