//! The configuration of the service, taken either from the command line or
//! from the environment.

use vstd::prelude::*;
use vstd::string::*;

verus! {

/// What the command line holds. `by_cli` says whether the values given here
/// are to be used; where it is absent or false, the environment is used.
#[derive(Debug, Clone)]
pub struct StartupConfig {
    pub by_cli: Option<bool>,
    pub database_url: Option<String>,
    pub jwt_secret: Option<String>,
    pub gemini_key: Option<String>,
    pub gemini_model: Option<String>,
    pub azure_tenant_id: Option<String>,
    pub azure_client_id: Option<String>,
    pub azure_client_secret: Option<String>,
    pub azure_encryption_key: Option<String>,
}

/// What the environment holds under the names of the settings.
#[derive(Debug, Clone)]
pub struct Environment {
    pub database_url: Option<String>,
    pub jwt_secret: Option<String>,
    pub gemini_key: Option<String>,
    pub gemini_model: Option<String>,
    pub azure_tenant_id: Option<String>,
    pub azure_client_id: Option<String>,
    pub azure_client_secret: Option<String>,
    pub azure_encryption_key: Option<String>,
}

/// The settings of the service.
#[derive(Debug, Clone)]
pub struct Config {
    pub database_url: String,
    pub jwt_secret: String,
    pub gemini_key: String,
    pub gemini_model: String,
    pub azure_tenant_id: String,
    pub azure_client_id: String,
    pub azure_client_secret: String,
    pub azure_encryption_key: String,
}

/// The eight settings of one source, in the order in which they are read.
pub open spec fn settings(
    database_url: Option<String>,
    jwt_secret: Option<String>,
    gemini_key: Option<String>,
    gemini_model: Option<String>,
    azure_tenant_id: Option<String>,
    azure_client_id: Option<String>,
    azure_client_secret: Option<String>,
    azure_encryption_key: Option<String>,
) -> Seq<Option<String>> {
    seq![
        database_url,
        jwt_secret,
        gemini_key,
        gemini_model,
        azure_tenant_id,
        azure_client_id,
        azure_client_secret,
        azure_encryption_key,
    ]
}

/// What is reported where the command line lacks the setting at `place`.
pub open spec fn cli_message(place: int) -> Seq<char> {
    if place == 0 {
        "`database_url` missing from CLI args"@
    } else if place == 1 {
        "`jwt_secret` missing from CLI args"@
    } else if place == 2 {
        "`gemini_key` missing from CLI args"@
    } else if place == 3 {
        "`gemini_model` missing from CLI args"@
    } else if place == 4 {
        "`azure_tenant_id` missing from CLI args"@
    } else if place == 5 {
        "`azure_client_id` missing from CLI args"@
    } else if place == 6 {
        "`azure_client_secret` missing from CLI args"@
    } else {
        "`azure_encryption_key` missing from CLI args"@
    }
}

/// What is reported where the environment lacks the setting at `place`.
pub open spec fn env_message(place: int) -> Seq<char> {
    if place == 0 {
        "`DATABASE_URL` missing from env vars"@
    } else if place == 1 {
        "`JWT_SECRET` missing from env vars"@
    } else if place == 2 {
        "`GEMINI_KEY` missing from env vars"@
    } else if place == 3 {
        "`GEMINI_MODEL` missing from env vars"@
    } else if place == 4 {
        "`AZURE_TENANT_ID` missing from env vars"@
    } else if place == 5 {
        "`AZURE_CLIENT_ID` missing from env vars"@
    } else if place == 6 {
        "`AZURE_CLIENT_SECRET` missing from env vars"@
    } else {
        "`AZURE_ENCRYPTION_KEY` missing from env vars"@
    }
}

/// The place of the first setting that is absent, or the number of settings
/// where none is.
pub open spec fn first_missing(values: Seq<Option<String>>) -> int
    decreases values.len(),
{
    if values.len() == 0 {
        0
    } else if values.first() is None {
        0
    } else {
        1 + first_missing(values.drop_first())
    }
}

/// The configuration made of eight settings that are all present.
pub open spec fn config_of(values: Seq<Option<String>>) -> Config {
    Config {
        database_url: values[0].unwrap(),
        jwt_secret: values[1].unwrap(),
        gemini_key: values[2].unwrap(),
        gemini_model: values[3].unwrap(),
        azure_tenant_id: values[4].unwrap(),
        azure_client_id: values[5].unwrap(),
        azure_client_secret: values[6].unwrap(),
        azure_encryption_key: values[7].unwrap(),
    }
}

fn required(value: Option<String>, message: &'static str) -> (r: Result<String, String>)
    ensures
        match value {
            Some(v) => r == Ok::<String, String>(v),
            None => r matches Err(m) && m@ == message@,
        },
{
    match value {
        Some(v) => Ok(v),
        None => Err(String::from_str(message)),
    }
}

proof fn lemma_first_missing(values: Seq<Option<String>>, upto: int)
    requires
        0 <= upto <= values.len(),
        forall|i: int| 0 <= i < upto ==> (#[trigger] values[i]) is Some,
    ensures
        upto < values.len() && values[upto] is None ==> first_missing(values) == upto,
        upto == values.len() ==> first_missing(values) == upto,
    decreases upto,
{
    if upto > 0 {
        let rest = values.drop_first();
        assert forall|i: int| 0 <= i < upto - 1 implies (#[trigger] rest[i]) is Some by {
            assert(values[i + 1] is Some);
        }
        lemma_first_missing(rest, upto - 1);
        assert(values.first() is Some);
        if upto < values.len() {
            assert(rest[upto - 1] == values[upto]);
        }
    }
}

impl StartupConfig {
    /// The values of the command line are to be used.
    pub open spec fn uses_cli(self) -> bool {
        self.by_cli == Some(true)
    }

    /// The settings that the command line holds.
    pub open spec fn cli_settings(self) -> Seq<Option<String>> {
        settings(
            self.database_url,
            self.jwt_secret,
            self.gemini_key,
            self.gemini_model,
            self.azure_tenant_id,
            self.azure_client_id,
            self.azure_client_secret,
            self.azure_encryption_key,
        )
    }

    /// Makes the configuration from the command line, where `by_cli` asks for
    /// that, and from the environment otherwise. Where a setting of the chosen
    /// source is absent, the first such setting is reported.
    pub fn to_config(self, env: Environment) -> (r: Result<Config, String>)
        ensures
            ({
                let values = if self.uses_cli() {
                    self.cli_settings()
                } else {
                    env.settings()
                };
                let place = first_missing(values);
                &&& r is Ok <==> place == 8
                &&& r matches Ok(config) ==> config == config_of(values)
                &&& r matches Err(message) ==> message@ == (if self.uses_cli() {
                    cli_message(place)
                } else {
                    env_message(place)
                })
            }),
    {
        let use_cli = match self.by_cli {
            Some(by_cli) => by_cli,
            None => false,
        };
        if use_cli {
            let ghost values = self.cli_settings();
            proof {
                lemma_first_missing(values, 0);
            }
            let database_url = required(self.database_url, "`database_url` missing from CLI args")?;
            proof {
                lemma_first_missing(values, 1);
            }
            let jwt_secret = required(self.jwt_secret, "`jwt_secret` missing from CLI args")?;
            proof {
                lemma_first_missing(values, 2);
            }
            let gemini_key = required(self.gemini_key, "`gemini_key` missing from CLI args")?;
            proof {
                lemma_first_missing(values, 3);
            }
            let gemini_model = required(self.gemini_model, "`gemini_model` missing from CLI args")?;
            proof {
                lemma_first_missing(values, 4);
            }
            let azure_tenant_id = required(
                self.azure_tenant_id,
                "`azure_tenant_id` missing from CLI args",
            )?;
            proof {
                lemma_first_missing(values, 5);
            }
            let azure_client_id = required(
                self.azure_client_id,
                "`azure_client_id` missing from CLI args",
            )?;
            proof {
                lemma_first_missing(values, 6);
            }
            let azure_client_secret = required(
                self.azure_client_secret,
                "`azure_client_secret` missing from CLI args",
            )?;
            proof {
                lemma_first_missing(values, 7);
            }
            let azure_encryption_key = required(
                self.azure_encryption_key,
                "`azure_encryption_key` missing from CLI args",
            )?;
            proof {
                lemma_first_missing(values, 8);
            }
            Ok(
                Config {
                    database_url,
                    jwt_secret,
                    gemini_key,
                    gemini_model,
                    azure_tenant_id,
                    azure_client_id,
                    azure_client_secret,
                    azure_encryption_key,
                },
            )
        } else {
            let ghost values = env.settings();
            proof {
                lemma_first_missing(values, 0);
            }
            let database_url = required(env.database_url, "`DATABASE_URL` missing from env vars")?;
            proof {
                lemma_first_missing(values, 1);
            }
            let jwt_secret = required(env.jwt_secret, "`JWT_SECRET` missing from env vars")?;
            proof {
                lemma_first_missing(values, 2);
            }
            let gemini_key = required(env.gemini_key, "`GEMINI_KEY` missing from env vars")?;
            proof {
                lemma_first_missing(values, 3);
            }
            let gemini_model = required(env.gemini_model, "`GEMINI_MODEL` missing from env vars")?;
            proof {
                lemma_first_missing(values, 4);
            }
            let azure_tenant_id = required(
                env.azure_tenant_id,
                "`AZURE_TENANT_ID` missing from env vars",
            )?;
            proof {
                lemma_first_missing(values, 5);
            }
            let azure_client_id = required(
                env.azure_client_id,
                "`AZURE_CLIENT_ID` missing from env vars",
            )?;
            proof {
                lemma_first_missing(values, 6);
            }
            let azure_client_secret = required(
                env.azure_client_secret,
                "`AZURE_CLIENT_SECRET` missing from env vars",
            )?;
            proof {
                lemma_first_missing(values, 7);
            }
            let azure_encryption_key = required(
                env.azure_encryption_key,
                "`AZURE_ENCRYPTION_KEY` missing from env vars",
            )?;
            proof {
                lemma_first_missing(values, 8);
            }
            Ok(
                Config {
                    database_url,
                    jwt_secret,
                    gemini_key,
                    gemini_model,
                    azure_tenant_id,
                    azure_client_id,
                    azure_client_secret,
                    azure_encryption_key,
                },
            )
        }
    }
}

impl Environment {
    /// The settings that the environment holds.
    pub open spec fn settings(self) -> Seq<Option<String>> {
        settings(
            self.database_url,
            self.jwt_secret,
            self.gemini_key,
            self.gemini_model,
            self.azure_tenant_id,
            self.azure_client_id,
            self.azure_client_secret,
            self.azure_encryption_key,
        )
    }
}

} // verus!
