use vstd::prelude::*;
use vstd::string::StringExecFns;

verus! {

/// Wi-Fi authentication modes of the `T:` field.
#[derive(Debug, Clone, Copy, PartialEq, Eq)]
pub enum Encryption {
    Wpa,
    Wep,
    NoPassword,
}

/// The text of the `T:` field for a mode.
pub open spec fn encryption_label(e: Encryption) -> Seq<char> {
    match e {
        Encryption::Wpa => "WPA"@,
        Encryption::Wep => "WEP"@,
        Encryption::NoPassword => "nopass"@,
    }
}

impl Encryption {
    /// The text of the `T:` field: `WPA`, `WEP` or `nopass`.
    pub fn label(&self) -> (r: String)
        ensures
            r@ == encryption_label(*self),
    {
        proof {
            reveal_strlit("WPA");
            reveal_strlit("WEP");
            reveal_strlit("nopass");
        }
        match self {
            Encryption::Wpa => String::from_str("WPA"),
            Encryption::Wep => String::from_str("WEP"),
            Encryption::NoPassword => String::from_str("nopass"),
        }
    }
}

/// `WIFI:S:<ssid>;T:<mode>;P:<password>;;`, with the fields inserted as they
/// are: delimiters inside them are not escaped.
pub open spec fn wifi_payload_spec(ssid: Seq<char>, mode: Seq<char>, password: Seq<char>) -> Seq<char> {
    "WIFI:S:"@ + ssid + ";T:"@ + mode + ";P:"@ + password + ";;"@
}

/// Builds the Wi-Fi QR payload from its three fields.
pub fn wifi_payload(ssid: &str, mode: &str, password: &str) -> (r: String)
    ensures
        r@ == wifi_payload_spec(ssid@, mode@, password@),
{
    let mut s = String::from_str("WIFI:S:");
    s.append(ssid);
    s.append(";T:");
    s.append(mode);
    s.append(";P:");
    s.append(password);
    s.append(";;");
    proof {
        reveal_strlit("WIFI:S:");
        reveal_strlit(";T:");
        reveal_strlit(";P:");
        reveal_strlit(";;");
    }
    s
}

} // verus!
