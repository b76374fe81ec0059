//! The carrier directory: well-known US mobile carriers and the domain of
//! each one's email-to-SMS gateway, plus an open `Other` case for any
//! caller-supplied domain.

use vstd::prelude::*;
use crate::text::str_eq;

verus! {

/// A cell phone carrier.
///
/// Only well-known US carriers are enumerated; the `Other` case holds an
/// arbitrary gateway domain, so unknown carriers stay representable.
#[derive(Debug)]
pub enum Carrier {
    /// [number]@txt.att.net
    ATT,
    /// [number]@messaging.sprintpcs.com
    Sprint,
    /// [number]@tmomail.net
    TMobile,
    /// [number]@vtext.com
    Verizon,
    /// [number]@myboostmobile.com
    BoostMobile,
    /// [number]@sms.mycricket.com
    Cricket,
    /// [number]@mymetropcs.com
    MetroPCS,
    /// [number]@mmst5.tracfone.com
    Tracfone,
    /// [number]@email.uscc.net
    USCellular,
    /// [number]@vmobl.com
    VirginMobile,
    /// Any other carrier; the string is the gateway domain.
    Other { domain: String },
}

/// The mathematical model of a [`Carrier`]: the same variants, with the
/// `Other` domain as a sequence of characters.
pub enum CarrierModel {
    ATT,
    Sprint,
    TMobile,
    Verizon,
    BoostMobile,
    Cricket,
    MetroPCS,
    Tracfone,
    USCellular,
    VirginMobile,
    Other { domain: Seq<char> },
}

impl View for Carrier {
    type V = CarrierModel;

    open spec fn view(&self) -> CarrierModel {
        match self {
            Carrier::ATT => CarrierModel::ATT,
            Carrier::Sprint => CarrierModel::Sprint,
            Carrier::TMobile => CarrierModel::TMobile,
            Carrier::Verizon => CarrierModel::Verizon,
            Carrier::BoostMobile => CarrierModel::BoostMobile,
            Carrier::Cricket => CarrierModel::Cricket,
            Carrier::MetroPCS => CarrierModel::MetroPCS,
            Carrier::Tracfone => CarrierModel::Tracfone,
            Carrier::USCellular => CarrierModel::USCellular,
            Carrier::VirginMobile => CarrierModel::VirginMobile,
            Carrier::Other { domain } => CarrierModel::Other { domain: domain@ },
        }
    }
}

/// The gateway domain of each carrier.  Total: every carrier resolves to
/// exactly one domain, and `Other` resolves to its own string verbatim.
pub open spec fn domain_of(c: CarrierModel) -> Seq<char> {
    match c {
        CarrierModel::ATT => "txt.att.net"@,
        CarrierModel::Sprint => "messaging.sprintpcs.com"@,
        CarrierModel::TMobile => "tmomail.net"@,
        CarrierModel::Verizon => "vtext.com"@,
        CarrierModel::BoostMobile => "myboostmobile.com"@,
        CarrierModel::Cricket => "sms.mycricket.com"@,
        CarrierModel::MetroPCS => "mymetropcs.com"@,
        CarrierModel::Tracfone => "mmst5.tracfone.com"@,
        CarrierModel::USCellular => "email.uscc.net"@,
        CarrierModel::VirginMobile => "vmobl.com"@,
        CarrierModel::Other { domain } => domain,
    }
}

/// Whether a textual tag names one of the enumerated carriers.
pub open spec fn known_tag(tag: Seq<char>) -> bool {
    ||| tag == "att"@
    ||| tag == "sprint"@
    ||| tag == "tmobile"@
    ||| tag == "verizon"@
    ||| tag == "boost"@
    ||| tag == "cricket"@
    ||| tag == "metropcs"@
    ||| tag == "tracfone"@
    ||| tag == "uscellular"@
    ||| tag == "virgin"@
}

/// The carrier a textual tag resolves to.  Total: an unrecognized tag becomes
/// `Other` with the tag itself as the domain.
pub open spec fn carrier_of_tag(tag: Seq<char>) -> CarrierModel {
    if tag == "att"@ {
        CarrierModel::ATT
    } else if tag == "sprint"@ {
        CarrierModel::Sprint
    } else if tag == "tmobile"@ {
        CarrierModel::TMobile
    } else if tag == "verizon"@ {
        CarrierModel::Verizon
    } else if tag == "boost"@ {
        CarrierModel::BoostMobile
    } else if tag == "cricket"@ {
        CarrierModel::Cricket
    } else if tag == "metropcs"@ {
        CarrierModel::MetroPCS
    } else if tag == "tracfone"@ {
        CarrierModel::Tracfone
    } else if tag == "uscellular"@ {
        CarrierModel::USCellular
    } else if tag == "virgin"@ {
        CarrierModel::VirginMobile
    } else {
        CarrierModel::Other { domain: tag }
    }
}

/// The domain a textual tag ultimately resolves to.
pub open spec fn tag_domain(tag: Seq<char>) -> Seq<char> {
    domain_of(carrier_of_tag(tag))
}

/// An unrecognized tag resolves to itself as a domain: the lookup silently
/// accepts any string as a custom gateway domain.
pub proof fn lemma_unknown_tag_domain(tag: Seq<char>)
    requires
        !known_tag(tag),
    ensures
        tag_domain(tag) == tag,
{
}

/// Each enumerated carrier tag resolves to its documented gateway domain.
pub proof fn lemma_known_tag_domains()
    ensures
        tag_domain("att"@) == "txt.att.net"@,
        tag_domain("sprint"@) == "messaging.sprintpcs.com"@,
        tag_domain("tmobile"@) == "tmomail.net"@,
        tag_domain("verizon"@) == "vtext.com"@,
        tag_domain("boost"@) == "myboostmobile.com"@,
        tag_domain("cricket"@) == "sms.mycricket.com"@,
        tag_domain("metropcs"@) == "mymetropcs.com"@,
        tag_domain("tracfone"@) == "mmst5.tracfone.com"@,
        tag_domain("uscellular"@) == "email.uscc.net"@,
        tag_domain("virgin"@) == "vmobl.com"@,
{
    reveal_strlit("att");
    reveal_strlit("sprint");
    reveal_strlit("tmobile");
    reveal_strlit("verizon");
    reveal_strlit("boost");
    reveal_strlit("cricket");
    reveal_strlit("metropcs");
    reveal_strlit("tracfone");
    reveal_strlit("uscellular");
    reveal_strlit("virgin");
    assert("att"@.len() == 3);
    assert("sprint"@.len() == 6);
    assert("tmobile"@.len() == 7);
    assert("verizon"@.len() == 7);
    assert("boost"@.len() == 5);
    assert("cricket"@.len() == 7);
    assert("metropcs"@.len() == 8);
    assert("tracfone"@.len() == 8);
    assert("uscellular"@.len() == 10);
    assert("virgin"@.len() == 6);
    assert("tmobile"@[0] == 't' && "verizon"@[0] == 'v' && "cricket"@[0] == 'c');
    assert("metropcs"@[0] == 'm' && "tracfone"@[0] == 't');
    assert("sprint"@[0] == 's' && "virgin"@[0] == 'v');
}

impl core::str::FromStr for Carrier {
    type Err = crate::error::AlertError;

    /// Resolves a tag as [`Carrier::from_tag`] does; it always succeeds.
    fn from_str(s: &str) -> Result<Self, Self::Err> {
        Ok(Carrier::from_tag(s))
    }
}

impl Clone for Carrier {
    fn clone(&self) -> (r: Self)
        ensures
            r@ == self@,
    {
        match self {
            Carrier::ATT => Carrier::ATT,
            Carrier::Sprint => Carrier::Sprint,
            Carrier::TMobile => Carrier::TMobile,
            Carrier::Verizon => Carrier::Verizon,
            Carrier::BoostMobile => Carrier::BoostMobile,
            Carrier::Cricket => Carrier::Cricket,
            Carrier::MetroPCS => Carrier::MetroPCS,
            Carrier::Tracfone => Carrier::Tracfone,
            Carrier::USCellular => Carrier::USCellular,
            Carrier::VirginMobile => Carrier::VirginMobile,
            Carrier::Other { domain } => Carrier::Other { domain: domain.clone() },
        }
    }
}

impl Carrier {
    /// Resolves a short textual tag (e.g. `"att"`, `"verizon"`) to a carrier.
    /// Never fails: any unrecognized tag becomes `Other` with the tag as its
    /// gateway domain.
    pub fn from_tag(s: &str) -> (c: Carrier)
        ensures
            c@ == carrier_of_tag(s@),
    {
        if str_eq(s, "att") {
            Carrier::ATT
        } else if str_eq(s, "sprint") {
            Carrier::Sprint
        } else if str_eq(s, "tmobile") {
            Carrier::TMobile
        } else if str_eq(s, "verizon") {
            Carrier::Verizon
        } else if str_eq(s, "boost") {
            Carrier::BoostMobile
        } else if str_eq(s, "cricket") {
            Carrier::Cricket
        } else if str_eq(s, "metropcs") {
            Carrier::MetroPCS
        } else if str_eq(s, "tracfone") {
            Carrier::Tracfone
        } else if str_eq(s, "uscellular") {
            Carrier::USCellular
        } else if str_eq(s, "virgin") {
            Carrier::VirginMobile
        } else {
            Carrier::Other { domain: s.to_owned() }
        }
    }

    /// The email domain of this carrier's SMS gateway.
    pub fn get_domain(&self) -> (r: &str)
        ensures
            r@ == domain_of(self@),
    {
        match self {
            Carrier::ATT => "txt.att.net",
            Carrier::Sprint => "messaging.sprintpcs.com",
            Carrier::TMobile => "tmomail.net",
            Carrier::Verizon => "vtext.com",
            Carrier::BoostMobile => "myboostmobile.com",
            Carrier::Cricket => "sms.mycricket.com",
            Carrier::MetroPCS => "mymetropcs.com",
            Carrier::Tracfone => "mmst5.tracfone.com",
            Carrier::USCellular => "email.uscc.net",
            Carrier::VirginMobile => "vmobl.com",
            Carrier::Other { domain } => domain.as_str(),
        }
    }
}

} // verus!
