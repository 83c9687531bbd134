//! Requests about the Pi's cloud account and its settings files.

use vstd::prelude::*;

verus! {

/// Connect the Pi to a PrintNanny Cloud account.
#[derive(Clone, Debug)]
pub struct ConnectPrintNannyCloudRequest {
    pub email: String,
    pub api_token: String,
    pub api_uri: String,
}

/// The answer to a successful connection.
#[derive(Clone, Debug)]
pub struct ConnectPrintNannyCloudReply {
    pub request: ConnectPrintNannyCloudRequest,
    pub detail: String,
}

impl ConnectPrintNannyCloudRequest {
    /// The reply once the account is connected: it holds the request and says
    /// whose account it is.
    pub fn success_reply(self) -> (r: ConnectPrintNannyCloudReply)
        ensures
            r.request == self,
            r.detail@ == "Success! Connected PrintNanny Cloud account belonging to "@ + self.email@,
    {
        let mut detail = String::new();
        detail.append("Success! Connected PrintNanny Cloud account belonging to ");
        detail.append(self.email.as_str());
        ConnectPrintNannyCloudReply { request: self, detail }
    }
}

/// Revert the camera pipeline settings to the commit given.
#[derive(Clone, Debug)]
pub struct GstPipelineSettingsRevertRequest {
    pub commit: String,
}

/// Revert the Moonraker settings to the commit given.
#[derive(Clone, Debug)]
pub struct MoonrakerSettingsRevertRequest {
    pub commit: String,
}

/// Revert the Klipper settings to the commit given.
#[derive(Clone, Debug)]
pub struct KlipperSettingsRevertRequest {
    pub commit: String,
}

/// Revert the OctoPrint settings to the commit given.
#[derive(Clone, Debug)]
pub struct OctoPrintSettingsRevertRequest {
    pub git_commit: String,
}

/// Connect the Pi to a PrintNanny Cloud account (`pi.{pi_id}.settings.printnanny.cloud.auth`).
#[derive(Clone, Debug)]
pub struct PrintNannyCloudAuthRequest {
    pub email: String,
    pub api_token: String,
    pub api_url: String,
}

/// The answer: an HTTP-like status code and a message.
#[derive(Clone, Debug)]
pub struct PrintNannyCloudAuthReply {
    pub status_code: i32,
    pub msg: String,
}

impl PrintNannyCloudAuthRequest {
    /// The answer once the connection was tried: `200` naming the account when it
    /// succeeded, `403` with the error's text when it failed.
    pub fn reply(&self, result: Result<(), String>) -> (r: PrintNannyCloudAuthReply)
        ensures
            match result {
                Ok(()) => r.status_code == 200 && r.msg@ == "Success! Connected account: "@
                    + self.email@,
                Err(e) => r.status_code == 403 && r.msg@ == "Error connecting account: "@ + e@,
            },
    {
        let mut msg = String::new();
        match result {
            Ok(()) => {
                msg.append("Success! Connected account: ");
                msg.append(self.email.as_str());
                PrintNannyCloudAuthReply { status_code: 200, msg }
            },
            Err(e) => {
                msg.append("Error connecting account: ");
                msg.append(e.as_str());
                PrintNannyCloudAuthReply { status_code: 403, msg }
            },
        }
    }
}

} // verus!
