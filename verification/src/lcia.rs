//! Characterisation matrices of the impact assessment methods: one row
//! per impact category, one column per elementary flow of the inventory,
//! filled from the characterisation factors that each method publishes
//! per flow.
use vstd::prelude::*;
use crate::impacts::{
    cml_at, cml_count, cml_position, ef31_at, ef31_count, ef31_position, method_categories,
    method_of_name, traci_at, traci_count, traci_position, ImpactCategory, ImpactMethod, CML, EF31,
    TRACI,
};
use crate::text::string_of;

verus! {

/// A sparse matrix under construction: labelled rows and columns, and the
/// entries added so far as (row, column, value) in the order of addition.
#[derive(Debug)]
pub struct MappedMatrixBuilder<V> {
    pub rows: Vec<ImpactCategory>,
    pub cols: Vec<String>,
    pub triplets: Vec<(ImpactCategory, String, V)>,
}

/// `v` is a value that `V::default()` may return.
pub open spec fn is_default<V: Default>(v: V) -> bool {
    V::default.ensures((), v)
}

/// `t` is the entry of row `row` and column `col` for the factor `factor`,
/// a missing factor counting as the default value.
pub open spec fn is_entry<V: Default>(
    t: (ImpactCategory, String, V),
    row: ImpactCategory,
    col: String,
    factor: Option<V>,
) -> bool {
    &&& t.0 == row
    &&& t.1 == col
    &&& match factor {
        Some(v) => t.2 == v,
        None => is_default(t.2),
    }
}

/// `ts` are the entries of column `col` for the factors `factors` of the
/// categories `rows`, in order.
pub open spec fn column_entries<V: Default>(
    ts: Seq<(ImpactCategory, String, V)>,
    rows: Seq<ImpactCategory>,
    col: String,
    factors: Seq<Option<V>>,
) -> bool {
    &&& ts.len() == rows.len()
    &&& rows.len() == factors.len()
    &&& forall|k: int| 0 <= k < ts.len() ==> is_entry(#[trigger] ts[k], rows[k], col, factors[k])
}

/// Copies a list of texts.
fn copy_texts(v: &Vec<String>) -> (r: Vec<String>)
    ensures
        r@ == v@,
{
    let mut r: Vec<String> = Vec::new();
    let mut i: usize = 0;
    while i < v.len()
        invariant
            i <= v@.len(),
            r@ == v@.take(i as int),
        decreases v@.len() - i,
    {
        r.push(v[i].clone());
        i = i + 1;
        assert(r@ =~= v@.take(i as int));
    }
    assert(v@.take(v@.len() as int) =~= v@);
    r
}

/// An empty matrix whose rows are the categories of `method` and whose
/// columns are the elementary flows `flows` (the rows of the
/// intervention matrix).
pub fn get_empty_matrix<V>(method: ImpactMethod, flows: &Vec<String>) -> (r: MappedMatrixBuilder<V>)
    ensures
        r.rows@ == method_categories(method),
        r.cols@ == flows@,
        r.triplets@.len() == 0,
{
    let rows = method.categories();
    MappedMatrixBuilder { rows, cols: copy_texts(flows), triplets: Vec::new() }
}

/// Whether `flow` is one of `flows`.
fn contains_flow(flows: &Vec<String>, flow: &String) -> (r: bool)
    ensures
        r == (exists|i: int| 0 <= i < flows@.len() && flows@[i]@ == flow@),
{
    let mut i: usize = 0;
    while i < flows.len()
        invariant
            i <= flows@.len(),
            forall|j: int| 0 <= j < i ==> flows@[j]@ != flow@,
        decreases flows@.len() - i,
    {
        if flows[i] == *flow {
            return true;
        }
        i = i + 1;
    }
    false
}

impl<V: Copy + Default> MappedMatrixBuilder<V> {
    /// Adds the entries of column `col`: one per category of `rows`, with
    /// the factor of the same position, a missing factor counting as the
    /// default value.
    pub fn add_triplets(&mut self, rows: &Vec<ImpactCategory>, factors: &Vec<Option<V>>, col: &String)
        requires
            rows@.len() == factors@.len(),
        ensures
            final(self).rows == old(self).rows,
            final(self).cols == old(self).cols,
            final(self).triplets@.len() == old(self).triplets@.len() + rows@.len(),
            final(self).triplets@.subrange(0, old(self).triplets@.len() as int) == old(self).triplets@,
            column_entries(
                final(self).triplets@.subrange(
                    old(self).triplets@.len() as int,
                    final(self).triplets@.len() as int,
                ),
                rows@,
                *col,
                factors@,
            ),
    {
        let ghost start = self.triplets@;
        let mut k: usize = 0;
        while k < rows.len()
            invariant
                rows@.len() == factors@.len(),
                k <= rows@.len(),
                self.rows == old(self).rows,
                self.cols == old(self).cols,
                start == old(self).triplets@,
                self.triplets@.len() == start.len() + k,
                self.triplets@.subrange(0, start.len() as int) == start,
                forall|j: int|
                    0 <= j < k ==> is_entry(
                        #[trigger] self.triplets@[start.len() + j],
                        rows@[j],
                        *col,
                        factors@[j],
                    ),
            decreases rows@.len() - k,
        {
            let value = match factors[k] {
                Some(v) => v,
                None => V::default(),
            };
            self.triplets.push((rows[k], col.clone(), value));
            assert(self.triplets@.subrange(0, start.len() as int) =~= start);
            k = k + 1;
        }
        let ghost added = self.triplets@.subrange(start.len() as int, self.triplets@.len() as int);
        assert forall|j: int| 0 <= j < added.len() implies is_entry(
            #[trigger] added[j],
            rows@[j],
            *col,
            factors@[j],
        ) by {
            assert(added[j] == self.triplets@[start.len() + j]);
        }
    }
}

/// The entries of a matrix filled from `records` (each a flow and its
/// factors, in category order) for the categories `rows` and the flows
/// `flows`: the records of flows that are not among `flows` are left out.
pub open spec fn filled_entries<V: Default>(
    ts: Seq<(ImpactCategory, String, V)>,
    rows: Seq<ImpactCategory>,
    flows: Seq<String>,
    records: Seq<(String, Seq<Option<V>>)>,
) -> bool
    decreases records.len(),
{
    if records.len() == 0 {
        ts.len() == 0
    } else {
        let last = records.last();
        if exists|i: int| 0 <= i < flows.len() && flows[i]@ == last.0@ {
            &&& ts.len() >= rows.len()
            &&& filled_entries(ts.subrange(0, ts.len() - rows.len()), rows, flows, records.drop_last())
            &&& column_entries(ts.subrange(ts.len() - rows.len(), ts.len() as int), rows, last.0, last.1)
        } else {
            filled_entries(ts, rows, flows, records.drop_last())
        }
    }
}

/// The characterisation factors of one elementary flow in the Environmental Footprint 3.1 method.
#[derive(Debug)]
pub struct EF31Impacts<V> {
    pub flow_id: String,
    pub gwp100: Option<V>,
    pub acidification_ae: Option<V>,
    pub biogenic_gwp100: Option<V>,
    pub fossil_gwp100: Option<V>,
    pub climate_change_land_use: Option<V>,
    pub particul_matter: Option<V>,
    pub ecotoxicity_freshwater: Option<V>,
    pub ecotoxicity_freshwater_inorganics: Option<V>,
    pub ecotoxicity_freshwater_organics: Option<V>,
    pub eutrophication_marine: Option<V>,
    pub eutrophication_freshwater: Option<V>,
    pub eutrophication_terrestrial: Option<V>,
    pub human_toxicity_carcinogenic: Option<V>,
    pub human_toxicity_carcinogenic_inorganics: Option<V>,
    pub human_toxicity_carcinogenic_organics: Option<V>,
    pub human_toxicity_non_cacrinogenic: Option<V>,
    pub human_toxicity_non_cacinogenic_inorganics: Option<V>,
    pub human_toxicity_non_cacinogenic_organics: Option<V>,
    pub ionising_radiation: Option<V>,
    pub land_use: Option<V>,
    pub ozone_depletion: Option<V>,
    pub photochemical_oxidant: Option<V>,
    pub energy_resources_non_renewable: Option<V>,
    pub resources_metals_minerals: Option<V>,
    pub water_use: Option<V>,
}

/// The factors of a record, in the order of the Environmental Footprint 3.1 categories.
pub open spec fn ef31_factors<V>(r: EF31Impacts<V>) -> Seq<Option<V>> {
    seq![
        r.gwp100,
        r.acidification_ae,
        r.biogenic_gwp100,
        r.fossil_gwp100,
        r.climate_change_land_use,
        r.ozone_depletion,
        r.particul_matter,
        r.ecotoxicity_freshwater,
        r.ecotoxicity_freshwater_inorganics,
        r.ecotoxicity_freshwater_organics,
        r.eutrophication_marine,
        r.eutrophication_freshwater,
        r.eutrophication_terrestrial,
        r.human_toxicity_carcinogenic,
        r.human_toxicity_carcinogenic_inorganics,
        r.human_toxicity_carcinogenic_organics,
        r.human_toxicity_non_cacrinogenic,
        r.human_toxicity_non_cacinogenic_inorganics,
        r.human_toxicity_non_cacinogenic_organics,
        r.ionising_radiation,
        r.land_use,
        r.photochemical_oxidant,
        r.energy_resources_non_renewable,
        r.resources_metals_minerals,
        r.water_use,
    ]
}

/// The records of a Environmental Footprint 3.1 file as flows and factors.
pub open spec fn ef31_records<V>(records: Seq<EF31Impacts<V>>) -> Seq<(String, Seq<Option<V>>)> {
    records.map_values(|r: EF31Impacts<V>| (r.flow_id, ef31_factors(r)))
}

impl<V: Copy> EF31Impacts<V> {
    /// The factors of this record, in the order of the categories.
    pub fn factors(&self) -> (r: Vec<Option<V>>)
        ensures
            r@ == ef31_factors(*self),
    {
        let mut f: Vec<Option<V>> = Vec::new();
        f.push(self.gwp100);
        f.push(self.acidification_ae);
        f.push(self.biogenic_gwp100);
        f.push(self.fossil_gwp100);
        f.push(self.climate_change_land_use);
        f.push(self.ozone_depletion);
        f.push(self.particul_matter);
        f.push(self.ecotoxicity_freshwater);
        f.push(self.ecotoxicity_freshwater_inorganics);
        f.push(self.ecotoxicity_freshwater_organics);
        f.push(self.eutrophication_marine);
        f.push(self.eutrophication_freshwater);
        f.push(self.eutrophication_terrestrial);
        f.push(self.human_toxicity_carcinogenic);
        f.push(self.human_toxicity_carcinogenic_inorganics);
        f.push(self.human_toxicity_carcinogenic_organics);
        f.push(self.human_toxicity_non_cacrinogenic);
        f.push(self.human_toxicity_non_cacinogenic_inorganics);
        f.push(self.human_toxicity_non_cacinogenic_organics);
        f.push(self.ionising_radiation);
        f.push(self.land_use);
        f.push(self.photochemical_oxidant);
        f.push(self.energy_resources_non_renewable);
        f.push(self.resources_metals_minerals);
        f.push(self.water_use);
        assert(f@ =~= ef31_factors(*self));
        f
    }
}

/// The characterisation factors of one elementary flow in the TRACI 2.1 method.
#[derive(Debug)]
pub struct TRACIImpacts<V> {
    pub flow_id: String,
    pub gwp100: Option<V>,
    pub acidification: Option<V>,
    pub eutrophication: Option<V>,
    pub particulate_matter: Option<V>,
    pub ozone_depletion: Option<V>,
    pub photochemical_oxidant: Option<V>,
    pub ecotoxicity_freshwater: Option<V>,
    pub human_toxicity_carcinogenic: Option<V>,
    pub human_toxicity_non_carcinogenic: Option<V>,
}

/// The factors of a record, in the order of the TRACI 2.1 categories.
pub open spec fn traci_factors<V>(r: TRACIImpacts<V>) -> Seq<Option<V>> {
    seq![
        r.gwp100,
        r.acidification,
        r.particulate_matter,
        r.ozone_depletion,
        r.photochemical_oxidant,
        r.eutrophication,
        r.ecotoxicity_freshwater,
        r.human_toxicity_carcinogenic,
        r.human_toxicity_non_carcinogenic,
    ]
}

/// The records of a TRACI 2.1 file as flows and factors.
pub open spec fn traci_records<V>(records: Seq<TRACIImpacts<V>>) -> Seq<(String, Seq<Option<V>>)> {
    records.map_values(|r: TRACIImpacts<V>| (r.flow_id, traci_factors(r)))
}

impl<V: Copy> TRACIImpacts<V> {
    /// The factors of this record, in the order of the categories.
    pub fn factors(&self) -> (r: Vec<Option<V>>)
        ensures
            r@ == traci_factors(*self),
    {
        let mut f: Vec<Option<V>> = Vec::new();
        f.push(self.gwp100);
        f.push(self.acidification);
        f.push(self.particulate_matter);
        f.push(self.ozone_depletion);
        f.push(self.photochemical_oxidant);
        f.push(self.eutrophication);
        f.push(self.ecotoxicity_freshwater);
        f.push(self.human_toxicity_carcinogenic);
        f.push(self.human_toxicity_non_carcinogenic);
        assert(f@ =~= traci_factors(*self));
        f
    }
}

/// The characterisation factors of one elementary flow in the CML 4.8 (2016) method.
#[derive(Debug)]
pub struct CMLImpacts<V> {
    pub flow_id: String,
    pub gwp100: Option<V>,
    pub resources_metals_minerals: Option<V>,
    pub energy_resources_non_renewable: Option<V>,
    pub ozone_depletion: Option<V>,
    pub human_toxicity: Option<V>,
    pub ecotoxicity_freshwater: Option<V>,
    pub ecotoxicity_marine: Option<V>,
    pub ecotoxicity_terrestrial: Option<V>,
    pub photochemical_oxidant_formation: Option<V>,
    pub acidification: Option<V>,
    pub eutrophication: Option<V>,
}

/// The factors of a record, in the order of the CML 4.8 (2016) categories.
pub open spec fn cml_factors<V>(r: CMLImpacts<V>) -> Seq<Option<V>> {
    seq![
        r.gwp100,
        r.resources_metals_minerals,
        r.energy_resources_non_renewable,
        r.ozone_depletion,
        r.human_toxicity,
        r.ecotoxicity_freshwater,
        r.ecotoxicity_marine,
        r.ecotoxicity_terrestrial,
        r.photochemical_oxidant_formation,
        r.acidification,
        r.eutrophication,
    ]
}

/// The records of a CML 4.8 (2016) file as flows and factors.
pub open spec fn cml_records<V>(records: Seq<CMLImpacts<V>>) -> Seq<(String, Seq<Option<V>>)> {
    records.map_values(|r: CMLImpacts<V>| (r.flow_id, cml_factors(r)))
}

impl<V: Copy> CMLImpacts<V> {
    /// The factors of this record, in the order of the categories.
    pub fn factors(&self) -> (r: Vec<Option<V>>)
        ensures
            r@ == cml_factors(*self),
    {
        let mut f: Vec<Option<V>> = Vec::new();
        f.push(self.gwp100);
        f.push(self.resources_metals_minerals);
        f.push(self.energy_resources_non_renewable);
        f.push(self.ozone_depletion);
        f.push(self.human_toxicity);
        f.push(self.ecotoxicity_freshwater);
        f.push(self.ecotoxicity_marine);
        f.push(self.ecotoxicity_terrestrial);
        f.push(self.photochemical_oxidant_formation);
        f.push(self.acidification);
        f.push(self.eutrophication);
        assert(f@ =~= cml_factors(*self));
        f
    }
}

/// The factor a Environmental Footprint 3.1 record gives the category `c`: the field named
/// for that category.
pub open spec fn ef31_factor_of<V>(r: EF31Impacts<V>, c: EF31) -> Option<V> {
    match c {
        EF31::Gwp100 => r.gwp100,
        EF31::Acidification => r.acidification_ae,
        EF31::BiogenicGwp100 => r.biogenic_gwp100,
        EF31::FossilGwp100 => r.fossil_gwp100,
        EF31::ClimateChangeLandUse => r.climate_change_land_use,
        EF31::OzoneDepletion => r.ozone_depletion,
        EF31::ParticulMatter => r.particul_matter,
        EF31::EcotoxicityFreshwater => r.ecotoxicity_freshwater,
        EF31::EcotoxicityFreshwaterInorganics => r.ecotoxicity_freshwater_inorganics,
        EF31::EcotoxicityFreshwaterOrganics => r.ecotoxicity_freshwater_organics,
        EF31::EutrophicationMarine => r.eutrophication_marine,
        EF31::EutrophicationFreshwater => r.eutrophication_freshwater,
        EF31::EutrophicationTerrestrial => r.eutrophication_terrestrial,
        EF31::HumanToxicityCarcinogenic => r.human_toxicity_carcinogenic,
        EF31::HumanToxicityCarcinogenicInorganics => r.human_toxicity_carcinogenic_inorganics,
        EF31::HumanToxicityCarcinogenicOrganics => r.human_toxicity_carcinogenic_organics,
        EF31::HumanToxicityNonCacrinogenic => r.human_toxicity_non_cacrinogenic,
        EF31::HumanToxicityNonCacinogenicInorganics => r.human_toxicity_non_cacinogenic_inorganics,
        EF31::HumanToxicityNonCacinogenicOrganics => r.human_toxicity_non_cacinogenic_organics,
        EF31::IonisingRadiation => r.ionising_radiation,
        EF31::LandUse => r.land_use,
        EF31::PhotochemicalOxidant => r.photochemical_oxidant,
        EF31::EnergyResourcesNonRenewable => r.energy_resources_non_renewable,
        EF31::ResourcesMetalsMinerals => r.resources_metals_minerals,
        EF31::WaterUse => r.water_use,
    }
}

/// Each category of the Environmental Footprint 3.1 method gets the factor of its own field: in
/// the factors of a record, and so in the column the record fills, the
/// factor in the row of category `c` is the record's field for `c`.
pub proof fn law_ef31_factor_rows<V>(r: EF31Impacts<V>)
    ensures
        ef31_factors(r).len() == ef31_count(),
        forall|c: EF31| #[trigger] ef31_factors(r)[ef31_position(c)] == ef31_factor_of(r, c),
        forall|i: int|
            0 <= i < ef31_count() ==> #[trigger] ef31_factors(r)[i] == ef31_factor_of(r, ef31_at(i)),
{
}

/// The factor a TRACI 2.1 record gives the category `c`: the field named
/// for that category.
pub open spec fn traci_factor_of<V>(r: TRACIImpacts<V>, c: TRACI) -> Option<V> {
    match c {
        TRACI::Gwp100 => r.gwp100,
        TRACI::Acidification => r.acidification,
        TRACI::ParticulMatter => r.particulate_matter,
        TRACI::OzoneDepletion => r.ozone_depletion,
        TRACI::PhotochemicalOxidant => r.photochemical_oxidant,
        TRACI::Eutrophication => r.eutrophication,
        TRACI::EcotoxicityFreshwater => r.ecotoxicity_freshwater,
        TRACI::HumanToxicityCarcinogenic => r.human_toxicity_carcinogenic,
        TRACI::HumanToxicityNonCarcinogenic => r.human_toxicity_non_carcinogenic,
    }
}

/// Each category of the TRACI 2.1 method gets the factor of its own field: in
/// the factors of a record, and so in the column the record fills, the
/// factor in the row of category `c` is the record's field for `c`.
pub proof fn law_traci_factor_rows<V>(r: TRACIImpacts<V>)
    ensures
        traci_factors(r).len() == traci_count(),
        forall|c: TRACI| #[trigger] traci_factors(r)[traci_position(c)] == traci_factor_of(r, c),
        forall|i: int|
            0 <= i < traci_count() ==> #[trigger] traci_factors(r)[i] == traci_factor_of(r, traci_at(i)),
{
}

/// The factor a CML 4.8 (2016) record gives the category `c`: the field named
/// for that category.
pub open spec fn cml_factor_of<V>(r: CMLImpacts<V>, c: CML) -> Option<V> {
    match c {
        CML::Gwp100 => r.gwp100,
        CML::ResourcesMetalsMinerals => r.resources_metals_minerals,
        CML::EnergyResourcesNonRenewable => r.energy_resources_non_renewable,
        CML::OzoneDepletion => r.ozone_depletion,
        CML::HumanToxicity => r.human_toxicity,
        CML::EcotoxicityFreshwater => r.ecotoxicity_freshwater,
        CML::EcotoxicityMarine => r.ecotoxicity_marine,
        CML::EcotoxicityTerrestrial => r.ecotoxicity_terrestrial,
        CML::PhotochemicalOxidantFormation => r.photochemical_oxidant_formation,
        CML::Acidification => r.acidification,
        CML::Eutrophication => r.eutrophication,
    }
}

/// Each category of the CML 4.8 (2016) method gets the factor of its own field: in
/// the factors of a record, and so in the column the record fills, the
/// factor in the row of category `c` is the record's field for `c`.
pub proof fn law_cml_factor_rows<V>(r: CMLImpacts<V>)
    ensures
        cml_factors(r).len() == cml_count(),
        forall|c: CML| #[trigger] cml_factors(r)[cml_position(c)] == cml_factor_of(r, c),
        forall|i: int|
            0 <= i < cml_count() ==> #[trigger] cml_factors(r)[i] == cml_factor_of(r, cml_at(i)),
{
}

/// Fills the matrix of `method` from the factors of each record (a flow
/// and its factors in category order), keeping the flows of `flows` only.
fn fill_matrix<V: Copy + Default>(
    method: ImpactMethod,
    flows: &Vec<String>,
    flow_ids: &Vec<&String>,
    factors: &Vec<Vec<Option<V>>>,
) -> (r: MappedMatrixBuilder<V>)
    requires
        flow_ids@.len() == factors@.len(),
        forall|i: int| 0 <= i < factors@.len() ==> (#[trigger] factors@[i])@.len() == method_categories(method).len(),
    ensures
        r.rows@ == method_categories(method),
        r.cols@ == flows@,
        filled_entries(
            r.triplets@,
            method_categories(method),
            flows@,
            Seq::new(flow_ids@.len(), |i: int| (*flow_ids@[i], factors@[i]@)),
        ),
{
    let mut mat = get_empty_matrix(method, flows);
    let ghost recs = Seq::new(flow_ids@.len(), |i: int| (*flow_ids@[i], factors@[i]@));
    let mut i: usize = 0;
    assert(recs.take(0) =~= Seq::<(String, Seq<Option<V>>)>::empty());
    while i < flow_ids.len()
        invariant
            flow_ids@.len() == factors@.len(),
            forall|j: int| 0 <= j < factors@.len() ==> (#[trigger] factors@[j])@.len() == method_categories(method).len(),
            recs == Seq::new(flow_ids@.len(), |j: int| (*flow_ids@[j], factors@[j]@)),
            i <= flow_ids@.len(),
            mat.rows@ == method_categories(method),
            mat.cols@ == flows@,
            filled_entries(mat.triplets@, method_categories(method), flows@, recs.take(i as int)),
        decreases flow_ids@.len() - i,
    {
        let ghost before = mat.triplets@;
        assert(recs.take(i + 1).drop_last() =~= recs.take(i as int));
        assert(recs.take(i + 1).last() == recs[i as int]);
        if contains_flow(flows, flow_ids[i]) {
            let rows = method.categories();
            mat.add_triplets(&rows, &factors[i], flow_ids[i]);
            assert(mat.triplets@.subrange(0, mat.triplets@.len() - method_categories(method).len()) == before);
        } else {
            assert(mat.triplets@ == before);
        }
        i = i + 1;
    }
    assert(recs.take(flow_ids@.len() as int) =~= recs);
    mat
}

/// The characterisation matrix of the Environmental Footprint 3.1 method for the
/// elementary flows `flows` (the rows of the intervention matrix), from
/// the records of the method's mapping file in file order: each record
/// of a flow among `flows` adds one entry per category, in category
/// order, a missing factor counting as the default value; records of
/// other flows are left out.
pub fn get_ef31_matrix<V: Copy + Default>(records: &Vec<EF31Impacts<V>>, flows: &Vec<String>) -> (r: MappedMatrixBuilder<V>)
    ensures
        r.rows@ == method_categories(ImpactMethod::EF31),
        r.cols@ == flows@,
        filled_entries(
            r.triplets@,
            method_categories(ImpactMethod::EF31),
            flows@,
            ef31_records(records@),
        ),
{
    let mut ids: Vec<&String> = Vec::new();
    let mut factors: Vec<Vec<Option<V>>> = Vec::new();
    let mut i: usize = 0;
    while i < records.len()
        invariant
            i <= records@.len(),
            ids@.len() == i,
            factors@.len() == i,
            forall|j: int| 0 <= j < i ==> *(#[trigger] ids@[j]) == records@[j].flow_id,
            forall|j: int| 0 <= j < i ==> (#[trigger] factors@[j])@ == ef31_factors(records@[j]),
        decreases records@.len() - i,
    {
        ids.push(&records[i].flow_id);
        factors.push(records[i].factors());
        i = i + 1;
    }
    let r = fill_matrix(ImpactMethod::EF31, flows, &ids, &factors);
    assert(Seq::new(ids@.len(), |j: int| (*ids@[j], factors@[j]@)) =~= ef31_records(records@));
    r
}

/// The characterisation matrix of the TRACI 2.1 method for the
/// elementary flows `flows` (the rows of the intervention matrix), from
/// the records of the method's mapping file in file order: each record
/// of a flow among `flows` adds one entry per category, in category
/// order, a missing factor counting as the default value; records of
/// other flows are left out.
pub fn get_traci_matrix<V: Copy + Default>(records: &Vec<TRACIImpacts<V>>, flows: &Vec<String>) -> (r: MappedMatrixBuilder<V>)
    ensures
        r.rows@ == method_categories(ImpactMethod::TRACI),
        r.cols@ == flows@,
        filled_entries(
            r.triplets@,
            method_categories(ImpactMethod::TRACI),
            flows@,
            traci_records(records@),
        ),
{
    let mut ids: Vec<&String> = Vec::new();
    let mut factors: Vec<Vec<Option<V>>> = Vec::new();
    let mut i: usize = 0;
    while i < records.len()
        invariant
            i <= records@.len(),
            ids@.len() == i,
            factors@.len() == i,
            forall|j: int| 0 <= j < i ==> *(#[trigger] ids@[j]) == records@[j].flow_id,
            forall|j: int| 0 <= j < i ==> (#[trigger] factors@[j])@ == traci_factors(records@[j]),
        decreases records@.len() - i,
    {
        ids.push(&records[i].flow_id);
        factors.push(records[i].factors());
        i = i + 1;
    }
    let r = fill_matrix(ImpactMethod::TRACI, flows, &ids, &factors);
    assert(Seq::new(ids@.len(), |j: int| (*ids@[j], factors@[j]@)) =~= traci_records(records@));
    r
}

/// The characterisation matrix of the CML 4.8 (2016) method for the
/// elementary flows `flows` (the rows of the intervention matrix), from
/// the records of the method's mapping file in file order: each record
/// of a flow among `flows` adds one entry per category, in category
/// order, a missing factor counting as the default value; records of
/// other flows are left out.
pub fn get_cml_matrix<V: Copy + Default>(records: &Vec<CMLImpacts<V>>, flows: &Vec<String>) -> (r: MappedMatrixBuilder<V>)
    ensures
        r.rows@ == method_categories(ImpactMethod::CML),
        r.cols@ == flows@,
        filled_entries(
            r.triplets@,
            method_categories(ImpactMethod::CML),
            flows@,
            cml_records(records@),
        ),
{
    let mut ids: Vec<&String> = Vec::new();
    let mut factors: Vec<Vec<Option<V>>> = Vec::new();
    let mut i: usize = 0;
    while i < records.len()
        invariant
            i <= records@.len(),
            ids@.len() == i,
            factors@.len() == i,
            forall|j: int| 0 <= j < i ==> *(#[trigger] ids@[j]) == records@[j].flow_id,
            forall|j: int| 0 <= j < i ==> (#[trigger] factors@[j])@ == cml_factors(records@[j]),
        decreases records@.len() - i,
    {
        ids.push(&records[i].flow_id);
        factors.push(records[i].factors());
        i = i + 1;
    }
    let r = fill_matrix(ImpactMethod::CML, flows, &ids, &factors);
    assert(Seq::new(ids@.len(), |j: int| (*ids@[j], factors@[j]@)) =~= cml_records(records@));
    r
}

/// The records read from the mapping file of each requested method.
pub struct ImpactRecords<V> {
    pub ef31: Option<Vec<EF31Impacts<V>>>,
    pub cml: Option<Vec<CMLImpacts<V>>>,
    pub traci: Option<Vec<TRACIImpacts<V>>>,
}

/// The records of `method` were read.
pub open spec fn has_records<V>(records: ImpactRecords<V>, method: ImpactMethod) -> bool {
    match method {
        ImpactMethod::EF31 => records.ef31 is Some,
        ImpactMethod::CML => records.cml is Some,
        ImpactMethod::TRACI => records.traci is Some,
    }
}

/// `m` is the matrix of `method` built from its records for `flows`.
pub open spec fn is_method_matrix<V: Default>(
    m: MappedMatrixBuilder<V>,
    method: ImpactMethod,
    records: ImpactRecords<V>,
    flows: Seq<String>,
) -> bool {
    &&& m.rows@ == method_categories(method)
    &&& m.cols@ == flows
    &&& filled_entries(
        m.triplets@,
        method_categories(method),
        flows,
        match method {
            ImpactMethod::EF31 => ef31_records(records.ef31.unwrap()@),
            ImpactMethod::CML => cml_records(records.cml.unwrap()@),
            ImpactMethod::TRACI => traci_records(records.traci.unwrap()@),
        },
    )
}

/// Some entry of `res` has the key `key`.
pub open spec fn has_key<T>(res: Seq<(String, T)>, key: Seq<char>) -> bool {
    exists|k: int| 0 <= k < res.len() && (#[trigger] res[k]).0@ == key
}

/// Some of the first `n` method names is `key`.
pub open spec fn is_requested(methods: Seq<&str>, n: int, key: Seq<char>) -> bool {
    exists|j: int| 0 <= j < n && (#[trigger] methods[j])@ == key
}

/// The characterisation matrix of every method of `methods`, keyed by its
/// name, each name once in the order of its first request; each matrix is
/// built from the records of its method for the flows `flows`.
pub fn get_impact_matrices<V: Copy + Default>(
    methods: &Vec<&str>,
    records: &ImpactRecords<V>,
    flows: &Vec<String>,
) -> (r: Vec<(String, MappedMatrixBuilder<V>)>)
    requires
        forall|i: int|
            0 <= i < methods@.len() ==> (method_of_name((#[trigger] methods@[i])@) matches Some(m)
                && has_records(*records, m)),
    ensures
        forall|k: int| 0 <= k < r@.len() ==> is_requested(methods@, methods@.len() as int, (#[trigger] r@[k]).0@),
        forall|i: int| 0 <= i < methods@.len() ==> has_key(r@, (#[trigger] methods@[i])@),
        forall|k: int, l: int| 0 <= k < l < r@.len() ==> (#[trigger] r@[k]).0@ != (#[trigger] r@[l]).0@,
        forall|k: int|
            0 <= k < r@.len() ==> is_method_matrix(
                (#[trigger] r@[k]).1,
                method_of_name(r@[k].0@).unwrap(),
                *records,
                flows@,
            ),
{
    let mut res: Vec<(String, MappedMatrixBuilder<V>)> = Vec::new();
    let mut i: usize = 0;
    while i < methods.len()
        invariant
            i <= methods@.len(),
            forall|j: int|
                0 <= j < methods@.len() ==> (method_of_name((#[trigger] methods@[j])@) matches Some(m)
                    && has_records(*records, m)),
            forall|k: int| 0 <= k < res@.len() ==> is_requested(methods@, i as int, (#[trigger] res@[k]).0@),
            forall|j: int| 0 <= j < i ==> has_key(res@, (#[trigger] methods@[j])@),
            forall|k: int, l: int|
                0 <= k < l < res@.len() ==> (#[trigger] res@[k]).0@ != (#[trigger] res@[l]).0@,
            forall|k: int|
                0 <= k < res@.len() ==> is_method_matrix(
                    (#[trigger] res@[k]).1,
                    method_of_name(res@[k].0@).unwrap(),
                    *records,
                    flows@,
                ),
        decreases methods@.len() - i,
    {
        let name = methods[i];
        let method = ImpactMethod::from_name(name);
        let mat = match method {
            Some(ImpactMethod::EF31) => match &records.ef31 {
                Some(r) => get_ef31_matrix(r, flows),
                None => get_empty_matrix(ImpactMethod::EF31, flows),
            },
            Some(ImpactMethod::CML) => match &records.cml {
                Some(r) => get_cml_matrix(r, flows),
                None => get_empty_matrix(ImpactMethod::CML, flows),
            },
            Some(ImpactMethod::TRACI) => match &records.traci {
                Some(r) => get_traci_matrix(r, flows),
                None => get_empty_matrix(ImpactMethod::TRACI, flows),
            },
            None => get_empty_matrix(ImpactMethod::EF31, flows),
        };
        let key = string_of(name);
        let mut found = false;
        let mut k: usize = 0;
        while k < res.len()
            invariant
                k <= res@.len(),
                found == (exists|l: int| 0 <= l < k && (#[trigger] res@[l]).0@ == key@),
            decreases res@.len() - k,
        {
            if res[k].0 == key {
                found = true;
            }
            k = k + 1;
        }
        let ghost before = res@;
        if !found {
            res.push((key, mat));
        }
        proof {
            assert(method_of_name(methods@[i as int]@) is Some);
            assert forall|k: int| 0 <= k < res@.len() implies is_requested(
                methods@,
                i + 1,
                (#[trigger] res@[k]).0@,
            ) by {
                if k < before.len() {
                    assert(is_requested(methods@, i as int, before[k].0@));
                    let j = choose|j: int| 0 <= j < i && (#[trigger] methods@[j])@ == before[k].0@;
                    assert(methods@[j]@ == res@[k].0@);
                } else {
                    assert(methods@[i as int]@ == res@[k].0@);
                }
            }
            assert forall|j: int| 0 <= j < i + 1 implies has_key(res@, (#[trigger] methods@[j])@) by {
                if j < i {
                    assert(has_key(before, methods@[j]@));
                    let k = choose|k: int| 0 <= k < before.len() && (#[trigger] before[k]).0@ == methods@[j]@;
                    assert(res@[k] == before[k]);
                } else if found {
                    let l = choose|l: int| 0 <= l < before.len() && (#[trigger] before[l]).0@ == key@;
                    assert(res@[l] == before[l]);
                } else {
                    assert(res@[res@.len() - 1].0@ == methods@[j]@);
                }
            }
        }
        i = i + 1;
    }
    res
}

/// Number of records whose flow is among `flows`.
pub open spec fn kept_records<V>(flows: Seq<String>, records: Seq<(String, Seq<Option<V>>)>) -> nat
    decreases records.len(),
{
    if records.len() == 0 {
        0
    } else if exists|i: int| 0 <= i < flows.len() && flows[i]@ == records.last().0@ {
        kept_records(flows, records.drop_last()) + 1
    } else {
        kept_records(flows, records.drop_last())
    }
}

/// A characterisation matrix holds one entry per category for each record
/// of a flow of the inventory, and nothing for the records of other flows.
pub proof fn law_entry_count<V: Default>(
    ts: Seq<(ImpactCategory, String, V)>,
    rows: Seq<ImpactCategory>,
    flows: Seq<String>,
    records: Seq<(String, Seq<Option<V>>)>,
)
    requires
        filled_entries(ts, rows, flows, records),
    ensures
        ts.len() == rows.len() * kept_records(flows, records),
    decreases records.len(),
{
    if records.len() > 0 {
        let last = records.last();
        if exists|i: int| 0 <= i < flows.len() && flows[i]@ == last.0@ {
            let head = ts.subrange(0, ts.len() - rows.len());
            law_entry_count(head, rows, flows, records.drop_last());
            let k = kept_records(flows, records.drop_last());
            assert(head.len() == ts.len() - rows.len());
            assert(rows.len() * (k + 1) == rows.len() * k + rows.len()) by (nonlinear_arith);
        } else {
            law_entry_count(ts, rows, flows, records.drop_last());
        }
    } else {
        assert(rows.len() * 0 == 0) by (nonlinear_arith);
    }
}

} // verus!
