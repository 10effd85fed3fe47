use vstd::prelude::*;

verus! {

/// A chain or account endpoint, held as its canonical encoding. Two
/// locations are the same exactly when their encodings are.
#[derive(Debug)]
pub struct Location {
    encoded: Vec<u8>,
}

impl View for Location {
    type V = Seq<u8>;

    open spec fn view(&self) -> Seq<u8> {
        self.spec_encoded()
    }
}

impl Location {
    pub closed spec fn spec_encoded(&self) -> Seq<u8> {
        self.encoded@
    }

    /// The location whose canonical encoding is `encoded`.
    pub fn new(encoded: Vec<u8>) -> (r: Location)
        ensures
            r@ == encoded@,
    {
        Location { encoded }
    }

    /// The canonical encoding.
    pub fn encoded(&self) -> (r: &Vec<u8>)
        ensures
            r@ == self@,
    {
        &self.encoded
    }
}

impl Clone for Location {
    fn clone(&self) -> (r: Self)
        ensures
            r@ == self@,
    {
        let encoded = self.encoded.clone();
        assert(encoded@ =~= self.encoded@);
        Location { encoded }
    }
}

/// An asset together with its quantity or instance.
#[derive(Debug)]
pub enum Asset {
    /// A fungible asset named by a location.
    ConcreteFungible { id: Location, amount: u128 },
    /// A fungible asset named by opaque bytes.
    AbstractFungible { id: Vec<u8>, amount: u128 },
    /// Any other class of asset (non-fungible or a wildcard), held as its
    /// canonical encoding.
    Other { encoded: Vec<u8> },
}

/// What an [`Asset`] denotes.
pub enum AssetView {
    ConcreteFungible { id: Seq<u8>, amount: u128 },
    AbstractFungible { id: Seq<u8>, amount: u128 },
    Other { encoded: Seq<u8> },
}

impl View for Asset {
    type V = AssetView;

    open spec fn view(&self) -> AssetView {
        match self {
            Asset::ConcreteFungible { id, amount } => AssetView::ConcreteFungible {
                id: id@,
                amount: *amount,
            },
            Asset::AbstractFungible { id, amount } => AssetView::AbstractFungible {
                id: id@,
                amount: *amount,
            },
            Asset::Other { encoded } => AssetView::Other { encoded: encoded@ },
        }
    }
}

impl Clone for Asset {
    fn clone(&self) -> (r: Self)
        ensures
            r@ == self@,
    {
        match self {
            Asset::ConcreteFungible { id, amount } => Asset::ConcreteFungible {
                id: id.clone(),
                amount: *amount,
            },
            Asset::AbstractFungible { id, amount } => {
                let id2 = id.clone();
                assert(id2@ =~= id@);
                Asset::AbstractFungible { id: id2, amount: *amount }
            },
            Asset::Other { encoded } => {
                let e2 = encoded.clone();
                assert(e2@ =~= encoded@);
                Asset::Other { encoded: e2 }
            },
        }
    }
}

} // verus!
