//! The listing record.

use vstd::prelude::*;

verus! {

/// The instant a listing was posted, in UTC: whole seconds since the Unix
/// epoch and the nanoseconds into that second.
#[derive(Clone, Copy, Debug, PartialEq, Eq, Structural)]
pub struct PostingDate {
    pub seconds: i64,
    pub nanoseconds: u32,
}

/// A property listing.
///
/// `id`, `posting_date` and `gallery_location` belong to the server: a client
/// may send them, and they are overwritten before the listing is stored (see
/// [`Property::drafted`]).
#[derive(Clone, Debug, PartialEq, Eq)]
pub struct Property {
    pub id: i32,
    pub name: String,
    pub location: i32,
    pub area: i32,
    pub property_type: i32,
    pub wc: i32,
    pub floor: i32,
    pub tothesea: i32,
    pub furniture: bool,
    pub appliances: bool,
    pub price: i32,
    pub posting_date: Option<PostingDate>,
    pub gallery_location: Option<String>,
}

/// A listing as a mathematical value.
pub struct PropertyView {
    pub id: i32,
    pub name: Seq<char>,
    pub location: i32,
    pub area: i32,
    pub property_type: i32,
    pub wc: i32,
    pub floor: i32,
    pub tothesea: i32,
    pub furniture: bool,
    pub appliances: bool,
    pub price: i32,
    pub posting_date: Option<PostingDate>,
    pub gallery_location: Option<Seq<char>>,
}

impl PropertyView {
    /// The listing as it goes to the datastore: the client's ten fields, the
    /// gallery it was given, and nothing else that the client may have sent.
    pub open spec fn drafted(self, gallery: Seq<char>) -> PropertyView {
        PropertyView { id: 0, posting_date: None, gallery_location: Some(gallery), ..self }
    }

    /// Whether two listings agree on the ten fields a client supplies.
    pub open spec fn same_client_fields(self, other: PropertyView) -> bool {
        &&& self.name == other.name
        &&& self.location == other.location
        &&& self.area == other.area
        &&& self.property_type == other.property_type
        &&& self.wc == other.wc
        &&& self.floor == other.floor
        &&& self.tothesea == other.tothesea
        &&& self.furniture == other.furniture
        &&& self.appliances == other.appliances
        &&& self.price == other.price
    }
}

impl View for Property {
    type V = PropertyView;

    open spec fn view(&self) -> PropertyView {
        PropertyView {
            id: self.id,
            name: self.name@,
            location: self.location,
            area: self.area,
            property_type: self.property_type,
            wc: self.wc,
            floor: self.floor,
            tothesea: self.tothesea,
            furniture: self.furniture,
            appliances: self.appliances,
            price: self.price,
            posting_date: self.posting_date,
            gallery_location: match self.gallery_location {
                Some(gallery) => Some(gallery@),
                None => None,
            },
        }
    }
}

impl DeepView for Property {
    type V = PropertyView;

    open spec fn deep_view(&self) -> PropertyView {
        self@
    }
}

impl Property {
    /// Prepares a client's listing for storage in the gallery `gallery`: the
    /// server-managed fields are reset, whatever the client put there.
    pub fn drafted(self, gallery: String) -> (draft: Property)
        ensures
            draft@ == self@.drafted(gallery@),
    {
        Property {
            id: 0,
            name: self.name,
            location: self.location,
            area: self.area,
            property_type: self.property_type,
            wc: self.wc,
            floor: self.floor,
            tothesea: self.tothesea,
            furniture: self.furniture,
            appliances: self.appliances,
            price: self.price,
            posting_date: None,
            gallery_location: Some(gallery),
        }
    }
}

} // verus!
