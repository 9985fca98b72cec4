use vstd::prelude::*;

verus! {

/// One row of vehicle-registration data. Only `electric_range`, `model_year`
/// and `dol_vehicle_id` take part in filtering; the other fields pass through.
#[derive(Debug)]
pub struct VehicleRecord {
    pub vin: String,
    pub county: String,
    pub city: String,
    pub state: String,
    pub postal_code: String,
    pub model_year: Option<u16>,
    pub make: String,
    pub model: String,
    pub electric_vehicle_type: String,
    pub cafv_eligibility: String,
    pub electric_range: Option<u16>,
    pub base_msrp: Option<u32>,
    pub legislative_district: Option<u16>,
    pub dol_vehicle_id: Option<u64>,
    pub vehicle_location: String,
    pub electric_utility: String,
    pub census_tract: String,
}

/// The electric range, with an absent value read as zero.
pub open spec fn range_or_zero(r: VehicleRecord) -> u16 {
    match r.electric_range {
        Some(x) => x,
        None => 0,
    }
}

/// A record is eligible when its range (zero when absent) reaches `min_range`.
pub open spec fn eligible(r: VehicleRecord, min_range: u16) -> bool {
    range_or_zero(r) >= min_range
}

/// A record is valid when the three fields that filtering relies on are present.
pub open spec fn valid(r: VehicleRecord) -> bool {
    r.electric_range.is_some() && r.model_year.is_some() && r.dol_vehicle_id.is_some()
}

fn copy_text(s: &String) -> (r: String)
    ensures
        r == *s,
{
    s.clone()
}

impl VehicleRecord {
    /// Whether the range, read as zero when absent, reaches `min_range`. This
    /// does not look at validity: the strategies test `has_valid_data` first.
    pub fn is_eligible(&self, min_range: u16) -> (r: bool)
        ensures
            r == eligible(*self, min_range),
    {
        let range: u16 = match self.electric_range {
            Some(x) => x,
            None => 0,
        };
        range >= min_range
    }

    /// Whether range, model year and vehicle id are all present.
    pub fn has_valid_data(&self) -> (r: bool)
        ensures
            r == valid(*self),
            r == (self.electric_range.is_some() && self.model_year.is_some()
                && self.dol_vehicle_id.is_some()),
    {
        self.electric_range.is_some() && self.model_year.is_some() && self.dol_vehicle_id.is_some()
    }

    /// A field-by-field copy of the record.
    pub fn duplicate(&self) -> (r: VehicleRecord)
        ensures
            r == *self,
    {
        VehicleRecord {
            vin: copy_text(&self.vin),
            county: copy_text(&self.county),
            city: copy_text(&self.city),
            state: copy_text(&self.state),
            postal_code: copy_text(&self.postal_code),
            model_year: self.model_year,
            make: copy_text(&self.make),
            model: copy_text(&self.model),
            electric_vehicle_type: copy_text(&self.electric_vehicle_type),
            cafv_eligibility: copy_text(&self.cafv_eligibility),
            electric_range: self.electric_range,
            base_msrp: self.base_msrp,
            legislative_district: self.legislative_district,
            dol_vehicle_id: self.dol_vehicle_id,
            vehicle_location: copy_text(&self.vehicle_location),
            electric_utility: copy_text(&self.electric_utility),
            census_tract: copy_text(&self.census_tract),
        }
    }
}

/// Eligibility is monotonic in the threshold: a record that meets a threshold
/// meets every lower one.
pub proof fn lemma_eligible_monotonic(r: VehicleRecord, t: u16, t2: u16)
    requires
        eligible(r, t),
        t2 <= t,
    ensures
        eligible(r, t2),
{
}

/// Validity depends on the three required fields alone: two records that agree
/// on them are both valid or both invalid, whatever their other fields hold; and
/// a record is invalid exactly when one of them is absent.
pub proof fn lemma_validity_depends_on_required_fields(a: VehicleRecord, b: VehicleRecord)
    requires
        a.electric_range.is_some() == b.electric_range.is_some(),
        a.model_year.is_some() == b.model_year.is_some(),
        a.dol_vehicle_id.is_some() == b.dol_vehicle_id.is_some(),
    ensures
        valid(a) == valid(b),
        !valid(a) <==> (a.electric_range.is_none() || a.model_year.is_none()
            || a.dol_vehicle_id.is_none()),
{
}

} // verus!
