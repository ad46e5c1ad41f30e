pub mod recaptcha_v2;
